use vstd::prelude::*;

verus! {

/// How the host should start a context server process.
pub struct LaunchSpec {
    /// The executable to run.
    pub command: String,
    /// The arguments handed to the executable, in order.
    pub args: Vec<String>,
    /// Environment overrides, as name and value pairs.
    pub env: Vec<(String, String)>,
}

/// The mathematical model of a [`LaunchSpec`].
pub struct LaunchSpecView {
    pub command: Seq<char>,
    pub args: Seq<Seq<char>>,
    pub env: Seq<(Seq<char>, Seq<char>)>,
}

impl View for LaunchSpec {
    type V = LaunchSpecView;

    open spec fn view(&self) -> LaunchSpecView {
        LaunchSpecView {
            command: self.command@,
            args: self.args@.map_values(|a: String| a@),
            env: self.env@.map_values(|p: (String, String)| (p.0@, p.1@)),
        }
    }
}

} // verus!
