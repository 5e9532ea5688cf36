//! The worker's path-permission decisions around one elicitation: is a
//! path already allowed, what question is put to the user, and what
//! the user's answer grants.
//!
//! Paths here are strings with `/` as the separator; normalization to
//! absolute form happens outside the library.

use vstd::prelude::*;
use vstd::string::StringExecFns;

use crate::ElicitationAction;
use crate::ipc::LocalElicitationResult;
use crate::text::str_eq;
use crate::text::str_starts_with;

verus! {

/// Whether `abs_path` lies under one of the allowed directories.
pub open spec fn path_allowed(abs_path: Seq<char>, allowed: Seq<Seq<char>>) -> bool {
    exists|i: int| 0 <= i < allowed.len() && (#[trigger] allowed[i]).is_prefix_of(abs_path)
}

/// Whether `abs_path` lies under one of the allowed directories.
pub fn is_path_allowed(abs_path: &str, allowed_dirs: &Vec<String>) -> (r: bool)
    ensures
        r == path_allowed(abs_path@, allowed_dirs.deep_view()),
{
    let mut i: usize = 0;
    while i < allowed_dirs.len()
        invariant
            i <= allowed_dirs.len(),
            forall|j: int|
                0 <= j < i ==> !(#[trigger] allowed_dirs.deep_view()[j]).is_prefix_of(abs_path@),
        decreases allowed_dirs.len() - i,
    {
        if str_starts_with(abs_path, allowed_dirs[i].as_str()) {
            assert(allowed_dirs.deep_view()[i as int].is_prefix_of(abs_path@));
            return true;
        }
        i += 1;
    }
    false
}

/// Whether the path holds a separator at all.
pub open spec fn has_slash(p: Seq<char>) -> bool {
    exists|j: int| 0 <= j < p.len() && p[j] == '/'
}

/// The position of the last separator.
pub open spec fn last_slash(p: Seq<char>) -> int {
    choose|j: int|
        0 <= j < p.len() && p[j] == '/' && (forall|k: int| j < k < p.len() ==> p[k] != '/')
}

/// The parent directory of a path: everything before the last
/// separator, or the root when the last separator opens the path.
/// A path without a separator has none.
pub open spec fn parent_of(p: Seq<char>) -> Option<Seq<char>> {
    if has_slash(p) {
        if last_slash(p) == 0 {
            Some(p.take(1))
        } else {
            Some(p.take(last_slash(p)))
        }
    } else {
        None
    }
}

/// The parent directory of a path, if it has one.
pub fn get_parent_dir(path: &str) -> (r: Option<String>)
    ensures
        match parent_of(path@) {
            Some(d) => (r matches Some(s) && s@ == d),
            None => r is None,
        },
{
    let n = path.unicode_len();
    let mut i: usize = n;
    while i > 0
        invariant
            i <= n,
            n == path@.len(),
            forall|k: int| i <= k < n ==> path@[k] != '/',
        decreases i,
    {
        i -= 1;
        if path.get_char(i) == '/' {
            proof {
                assert(path@[i as int] == '/' && (forall|k: int|
                    i < k < path@.len() ==> path@[k] != '/'));
                assert(has_slash(path@));
                let j = last_slash(path@);
                assert(0 <= j < path@.len() && path@[j] == '/' && (forall|k: int|
                    j < k < path@.len() ==> path@[k] != '/'));
                assert(j == i as int) by {
                    if j < i as int {
                        assert(path@[i as int] != '/');
                    }
                    if j > i as int {
                        assert(path@[j] != '/');
                    }
                }
            }
            if i == 0 {
                let root = path.substring_char(0, 1);
                return Some(root.to_owned());
            }
            let d = path.substring_char(0, i);
            proof {
                assert(path@.subrange(0, i as int) =~= path@.take(i as int));
            }
            return Some(d.to_owned());
        }
    }
    proof {
        assert(!has_slash(path@));
    }
    None
}

/// The question put to the user before the operation touches the path.
pub open spec fn permission_message_spec(operation: Seq<char>, abs_path: Seq<char>) -> Seq<char> {
    "Permission required for "@ + operation + " operation on:\n"@ + abs_path
        + "\n\nAllow access?"@
}

/// The question put to the user before the operation touches the path.
pub fn permission_message(operation: &str, abs_path: &str) -> (r: String)
    ensures
        r@ == permission_message_spec(operation@, abs_path@),
{
    let mut r = "Permission required for ".to_owned();
    r.append(operation);
    r.append(" operation on:\n");
    r.append(abs_path);
    r.append("\n\nAllow access?");
    proof {
        assert(r@ =~= permission_message_spec(operation@, abs_path@));
    }
    r
}

/// The value under `key` in answered content: the first pair with that
/// key, if any.
pub open spec fn content_lookup(content: Seq<(Seq<char>, Seq<char>)>, key: Seq<char>) -> Option<
    Seq<char>,
>
    decreases content.len(),
{
    if content.len() == 0 {
        None
    } else if content.first().0 == key {
        Some(content.first().1)
    } else {
        content_lookup(content.drop_first(), key)
    }
}

/// The value under `key` in answered content, if any.
pub fn lookup_content(content: &Vec<(String, String)>, key: &str) -> (r: Option<String>)
    ensures
        match content_lookup(content.deep_view(), key@) {
            Some(v) => (r matches Some(s) && s@ == v),
            None => r is None,
        },
{
    let mut i: usize = 0;
    proof {
        assert(content.deep_view().skip(0) =~= content.deep_view());
    }
    while i < content.len()
        invariant
            i <= content.len(),
            content_lookup(content.deep_view(), key@) == content_lookup(
                content.deep_view().skip(i as int),
                key@,
            ),
        decreases content.len() - i,
    {
        let (k, v) = &content[i];
        proof {
            assert(content.deep_view().skip(i as int).first() == (k@, v@));
            assert(content.deep_view().skip(i as int).drop_first() =~= content.deep_view().skip(
                i + 1,
            ));
        }
        if str_eq(k.as_str(), key) {
            return Some(v.clone());
        }
        i += 1;
    }
    proof {
        assert(content.deep_view().skip(content.deep_view().len() as int) =~= Seq::<(
            Seq<char>,
            Seq<char>,
        )>::empty());
    }
    None
}

/// What the user's answer grants.
#[derive(Debug, PartialEq, Eq)]
pub enum PermissionDecision {
    /// Allowed, this time only.
    Allow,
    /// Allowed, and the directory is to be remembered as allowed.
    AllowAndRemember(String),
    /// Denied — a decline, a cancellation, a missing answer, or an
    /// explicit refusal.
    Deny,
}

/// The directory remembered when the user grants permanently: the
/// path's parent, or the path itself when it has no parent.
pub open spec fn dir_to_remember(abs_path: Seq<char>) -> Seq<char> {
    match parent_of(abs_path) {
        Some(d) => d,
        None => abs_path,
    }
}

/// What an answer grants: an accepting answer whose `choice` field is
/// `always` grants and remembers the path's directory; `yes` grants
/// once; everything else — other choices, a missing choice or missing
/// content, a decline or a cancellation — denies.
pub open spec fn decision_model(
    action: ElicitationAction,
    content: Option<Seq<(Seq<char>, Seq<char>)>>,
    abs_path: Seq<char>,
) -> PermissionDecisionModel {
    if action is Accept {
        match content {
            Some(c) => {
                let choice = match content_lookup(c, "choice"@) {
                    Some(v) => v,
                    None => "no"@,
                };
                if choice == "always"@ {
                    PermissionDecisionModel::AllowAndRemember(dir_to_remember(abs_path))
                } else if choice == "yes"@ {
                    PermissionDecisionModel::Allow
                } else {
                    PermissionDecisionModel::Deny
                }
            },
            None => PermissionDecisionModel::Deny,
        }
    } else {
        PermissionDecisionModel::Deny
    }
}

/// Model of a decision: the remembered directory as a sequence.
#[verifier::ext_equal]
pub enum PermissionDecisionModel {
    Allow,
    AllowAndRemember(Seq<char>),
    Deny,
}

impl PermissionDecision {
    /// Model of this decision.
    pub open spec fn model(&self) -> PermissionDecisionModel {
        match self {
            PermissionDecision::Allow => PermissionDecisionModel::Allow,
            PermissionDecision::AllowAndRemember(d) => PermissionDecisionModel::AllowAndRemember(
                d@,
            ),
            PermissionDecision::Deny => PermissionDecisionModel::Deny,
        }
    }
}

/// Decide what one elicitation answer grants for `abs_path`.
pub fn permission_decision(result: &LocalElicitationResult, abs_path: &str) -> (r:
    PermissionDecision)
    ensures
        r.model() == decision_model(
            result.action,
            match result.content {
                Some(c) => Some(c.deep_view()),
                None => None,
            },
            abs_path@,
        ),
{
    if !matches!(result.action, ElicitationAction::Accept) {
        return PermissionDecision::Deny;
    }
    let content = match &result.content {
        Some(c) => c,
        None => {
            return PermissionDecision::Deny;
        },
    };
    let choice = match lookup_content(content, "choice") {
        Some(v) => v,
        None => "no".to_owned(),
    };
    if str_eq(choice.as_str(), "always") {
        let dir = match get_parent_dir(abs_path) {
            Some(d) => d,
            None => abs_path.to_owned(),
        };
        PermissionDecision::AllowAndRemember(dir)
    } else if str_eq(choice.as_str(), "yes") {
        PermissionDecision::Allow
    } else {
        PermissionDecision::Deny
    }
}

/// Remember `dir` as allowed, once: a directory already in the list is
/// not added again.
pub fn remember_dir(allowed_dirs: &mut Vec<String>, dir: String)
    ensures
        (exists|i: int|
            0 <= i < old(allowed_dirs).deep_view().len() && old(allowed_dirs).deep_view()[i]
                == dir@) ==> *final(allowed_dirs) == *old(allowed_dirs),
        !(exists|i: int|
            0 <= i < old(allowed_dirs).deep_view().len() && old(allowed_dirs).deep_view()[i]
                == dir@) ==> final(allowed_dirs).deep_view() == old(allowed_dirs).deep_view().push(
            dir@,
        ),
{
    let mut i: usize = 0;
    while i < allowed_dirs.len()
        invariant
            i <= allowed_dirs.len(),
            *allowed_dirs == *old(allowed_dirs),
            forall|j: int| 0 <= j < i ==> old(allowed_dirs).deep_view()[j] != dir@,
        decreases allowed_dirs.len() - i,
    {
        if str_eq(allowed_dirs[i].as_str(), dir.as_str()) {
            assert(old(allowed_dirs).deep_view()[i as int] == dir@);
            return ;
        }
        i += 1;
    }
    allowed_dirs.push(dir);
    proof {
        assert(final(allowed_dirs).deep_view() =~= old(allowed_dirs).deep_view().push(dir@));
    }
}

} // verus!
