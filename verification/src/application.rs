//! The application that runs inside the namespace.

use crate::commands::{begin_inside, inside, push_arg};
use crate::text::views;
use vstd::prelude::*;

verus! {

/// The command that runs an application inside a namespace: through a shell,
/// and as the given user where one is given.
pub open spec fn spec_application_command(
    namespace: Seq<char>,
    user: Option<Seq<char>>,
    application: Seq<char>,
) -> Seq<Seq<char>> {
    inside(namespace) + match user {
        Some(name) => seq!["sudo"@, "-u"@, name],
        None => Seq::empty(),
    } + seq!["sh"@, "-c"@, application]
}

/// The command that runs an application inside a namespace. Without a user
/// the application runs as the caller, which is root.
pub fn application_command(namespace: &str, user: Option<&str>, application: &str) -> (argv: Vec<
    String,
>)
    ensures
        views(argv@) == spec_application_command(namespace@, user.deep_view(), application@),
{
    let mut argv = begin_inside(namespace);
    match user {
        Some(name) => {
            push_arg(&mut argv, "sudo");
            push_arg(&mut argv, "-u");
            push_arg(&mut argv, name);
        },
        None => {},
    }
    push_arg(&mut argv, "sh");
    push_arg(&mut argv, "-c");
    push_arg(&mut argv, application);
    assert(views(argv@) =~= spec_application_command(
        namespace@,
        user.deep_view(),
        application@,
    ));
    argv
}

/// What the exit of the application means for the caller's own exit: the
/// application's code, or 1 where it was ended by a signal.
pub fn exit_code_for(application_code: Option<i32>) -> (code: i32)
    ensures
        code == match application_code {
            Some(c) => c,
            None => 1,
        },
{
    match application_code {
        Some(c) => c,
        None => 1,
    }
}

} // verus!
