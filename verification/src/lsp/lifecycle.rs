//! What holds of a language server's life from start to stop.

use vstd::prelude::*;
use crate::lsp::{
    LspErrorView, ServerView, StartStepView, configured_command, registered_root, root_uri_of,
    start_decision,
};

verus! {

/// Starting is idempotent. Once a launch has been registered for a
/// language, a further start request for it launches nothing, whatever
/// project root it names; and a request for a language whose server is
/// running launches nothing either. A start request does not touch the
/// table, so the one registered process stays the only one.
pub proof fn lemma_start_twice<H>(
    servers: Map<Seq<char>, ServerView<H>>,
    language_id: Seq<char>,
    root_path: Seq<char>,
    process: H,
    root_path_again: Seq<char>,
)
    ensures
        start_decision(
            servers.insert(
                language_id,
                ServerView { process, root_uri: root_uri_of(root_path) },
            ).dom(),
            language_id,
            root_path_again,
        ) == Ok::<StartStepView, LspErrorView>(StartStepView::AlreadyRunning),
        servers.contains_key(language_id) ==> start_decision(
            servers.dom(),
            language_id,
            root_path_again,
        ) == Ok::<StartStepView, LspErrorView>(StartStepView::AlreadyRunning),
{
}

/// A start request launches a command exactly when no server is running for
/// the language and one is configured for it; it fails exactly when none is
/// running and none is configured.
pub proof fn lemma_start_outcomes(
    running: Set<Seq<char>>,
    language_id: Seq<char>,
    root_path: Seq<char>,
)
    ensures
        start_decision(running, language_id, root_path) is Err <==> !running.contains(language_id)
            && configured_command(language_id, root_path) is None,
        start_decision(running, language_id, root_path) matches Ok(StartStepView::Launch(c))
            <==> !running.contains(language_id) && configured_command(language_id, root_path)
            is Some,
{
}

/// After a server was stopped no root URI is registered for its language,
/// and the other languages keep theirs.
pub proof fn lemma_stopped_is_absent<H>(
    servers: Map<Seq<char>, ServerView<H>>,
    language_id: Seq<char>,
    other: Seq<char>,
)
    ensures
        registered_root(servers.remove(language_id), language_id) == None::<Seq<char>>,
        other != language_id ==> registered_root(servers.remove(language_id), other)
            == registered_root(servers, other),
{
}

/// After a launch was registered its language has the root URI of the
/// project it was started for.
pub proof fn lemma_started_is_present<H>(
    servers: Map<Seq<char>, ServerView<H>>,
    language_id: Seq<char>,
    root_path: Seq<char>,
    process: H,
)
    ensures
        registered_root(
            servers.insert(language_id, ServerView { process, root_uri: root_uri_of(root_path) }),
            language_id,
        ) == Some(root_uri_of(root_path)),
{
}

} // verus!
