//! How a message is shown: the style it is drawn under.

use crate::role::Role;
use vstd::prelude::*;
use vstd::string::StringExecFns;

verus! {

/// The style that marks whose message it is.
pub open spec fn role_style(role: Role) -> Seq<char> {
    match role {
        Role::User => "userMessages"@,
        Role::Ai => "aiMessages"@,
    }
}

/// The style a message of a role is drawn under: the role's own style, a
/// space, and the style that all messages share.
pub open spec fn class_of(role: Role) -> Seq<char> {
    role_style(role) + " "@ + "message"@
}

/// The style a message of the given role is drawn under.
pub fn message_class(role: Role) -> (class: String)
    ensures
        class@ == class_of(role),
{
    let mut class = match role {
        Role::User => "userMessages".to_owned(),
        Role::Ai => "aiMessages".to_owned(),
    };
    class.append(" ");
    class.append("message");
    class
}

/// Messages of the two roles are drawn under different styles, and each
/// style is the text that the page's style sheet names.
pub proof fn lemma_styles_tell_roles_apart(a: Role, b: Role)
    ensures
        class_of(a) == class_of(b) <==> a == b,
        class_of(Role::User) == "userMessages message"@,
        class_of(Role::Ai) == "aiMessages message"@,
{
    reveal_strlit("userMessages");
    reveal_strlit("aiMessages");
    reveal_strlit(" ");
    reveal_strlit("message");
    reveal_strlit("userMessages message");
    reveal_strlit("aiMessages message");
    assert(class_of(Role::User) =~= "userMessages message"@);
    assert(class_of(Role::Ai) =~= "aiMessages message"@);
    assert(class_of(Role::User).len() != class_of(Role::Ai).len());
}

} // verus!
