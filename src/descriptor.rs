//! The launch descriptor handed back to the editor: which program to run,
//! with which arguments and which environment.
use vstd::prelude::*;

verus! {

/// What a launch descriptor holds, as mathematical values.
pub struct LaunchView {
    pub command: Seq<char>,
    pub args: Seq<Seq<char>>,
    pub env: Seq<(Seq<char>, Seq<char>)>,
}

/// The program to start, its arguments in order, and the environment
/// variables (name, value) to set for it, in order.
#[derive(Debug, PartialEq, Eq)]
pub struct LaunchDescriptor {
    pub command: String,
    pub args: Vec<String>,
    pub env: Vec<(String, String)>,
}

impl View for LaunchDescriptor {
    type V = LaunchView;

    open spec fn view(&self) -> LaunchView {
        LaunchView {
            command: self.command@,
            args: self.args.deep_view(),
            env: self.env.deep_view(),
        }
    }
}

} // verus!
