use crate::launch::{LaunchSpec, LaunchSpecView};
use vstd::prelude::*;
use vstd::string::StringExecFns;

verus! {

/// The one context server id that this extension knows how to start.
pub const SERVER_ID: &'static str = "inkscape-mcp";

/// The executable that starts the server.
pub const LAUNCHER: &'static str = "uv";

/// The launcher's subcommand that runs a named tool.
pub const RUN: &'static str = "run";

/// What the message of an unknown-server error starts with.
pub const UNKNOWN_SERVER_PREFIX: &'static str = "Unknown server: ";

/// Why a server id could not be resolved.
pub enum ResolveError {
    /// The id is not one that this extension knows; it is kept verbatim.
    UnknownServer { id: String },
}

/// The mathematical model of a [`ResolveError`].
pub enum ResolveErrorView {
    UnknownServer { id: Seq<char> },
}

impl View for ResolveError {
    type V = ResolveErrorView;

    open spec fn view(&self) -> ResolveErrorView {
        match self {
            ResolveError::UnknownServer { id } => ResolveErrorView::UnknownServer { id: id@ },
        }
    }
}

/// The launch of the known server: `uv run inkscape-mcp`, no environment overrides.
pub open spec fn server_launch() -> LaunchSpecView {
    LaunchSpecView { command: LAUNCHER@, args: seq![RUN@, SERVER_ID@], env: Seq::empty() }
}

/// What resolving `id` yields.
pub open spec fn spec_resolve(id: Seq<char>) -> Result<LaunchSpecView, ResolveErrorView> {
    if id == SERVER_ID@ {
        Ok(server_launch())
    } else {
        Err(ResolveErrorView::UnknownServer { id })
    }
}

/// The model of an executable resolution outcome.
pub open spec fn outcome_view(r: Result<LaunchSpec, ResolveError>) -> Result<
    LaunchSpecView,
    ResolveErrorView,
> {
    match r {
        Ok(s) => Ok(s@),
        Err(e) => Err(e@),
    }
}

/// The human-readable message of an error.
pub open spec fn message_of(e: ResolveErrorView) -> Seq<char> {
    match e {
        ResolveErrorView::UnknownServer { id } => UNKNOWN_SERVER_PREFIX@ + id,
    }
}

/// `part` occurs in `whole` as a contiguous run of characters.
pub open spec fn contains_verbatim(whole: Seq<char>, part: Seq<char>) -> bool {
    exists|i: int|
        0 <= i && i + part.len() <= whole.len() && #[trigger] whole.subrange(i, i + part.len())
            == part
}

impl ResolveError {
    /// The message the host shows for this error, e.g. `Unknown server: other-server`.
    pub fn message(&self) -> (m: String)
        ensures
            m@ == message_of(self@),
    {
        match self {
            ResolveError::UnknownServer { id } => {
                let mut m = String::from_str(UNKNOWN_SERVER_PREFIX);
                m.append(id.as_str());
                m
            },
        }
    }
}

/// Says how to start the context server named `id`.
///
/// The known id resolves to `uv run inkscape-mcp` with no environment
/// overrides; every other id, compared exactly, is an unknown server.
pub fn resolve(id: &str) -> (r: Result<LaunchSpec, ResolveError>)
    ensures
        outcome_view(r) == spec_resolve(id@),
        r is Ok <==> id@ == SERVER_ID@,
        r matches Ok(s) ==> s.command@ == LAUNCHER@ && s.args@.len() == 2 && s.args@[0]@
            == RUN@ && s.args@[1]@ == SERVER_ID@ && s.env@.len() == 0,
        r matches Err(e) ==> e@ == (ResolveErrorView::UnknownServer { id: id@ }),
{
    let requested = String::from_str(id);
    let known = String::from_str(SERVER_ID);
    if requested == known {
        let mut args: Vec<String> = Vec::new();
        args.push(String::from_str(RUN));
        args.push(known);
        let spec = LaunchSpec { command: String::from_str(LAUNCHER), args, env: Vec::new() };
        assert(spec@.args =~= seq![RUN@, SERVER_ID@]);
        assert(spec@.env =~= Seq::<(Seq<char>, Seq<char>)>::empty());
        Ok(spec)
    } else {
        Err(ResolveError::UnknownServer { id: requested })
    }
}

/// Resolving the known id succeeds with exactly `uv run inkscape-mcp` and an
/// empty environment.
pub proof fn lemma_known_id_resolves(id: Seq<char>)
    requires
        id == SERVER_ID@,
    ensures
        spec_resolve(id) matches Ok(s) && s.command == LAUNCHER@ && s.args == seq![
            RUN@,
            SERVER_ID@,
        ] && s.env.len() == 0,
{
}

/// Resolving any other id fails with an unknown-server error whose message
/// holds that id verbatim.
pub proof fn lemma_unknown_id_named_in_message(id: Seq<char>)
    requires
        id != SERVER_ID@,
    ensures
        spec_resolve(id) matches Err(e) && e == (ResolveErrorView::UnknownServer { id })
            && contains_verbatim(message_of(e), id),
{
    let whole = UNKNOWN_SERVER_PREFIX@ + id;
    let start = UNKNOWN_SERVER_PREFIX@.len() as int;
    assert(whole.subrange(start, start + id.len()) =~= id);
}

/// Resolution is pure: two resolutions of one id give equal results.
pub proof fn lemma_resolution_is_pure(
    id: Seq<char>,
    first: Result<LaunchSpec, ResolveError>,
    second: Result<LaunchSpec, ResolveError>,
)
    requires
        outcome_view(first) == spec_resolve(id),
        outcome_view(second) == spec_resolve(id),
    ensures
        outcome_view(first) == outcome_view(second),
{
}

} // verus!
