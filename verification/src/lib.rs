//! Assembles Lua script text from typed literals, statements and calls.
//!
//! Literals make up statements, statements are collected in containers, and
//! a [`LuaBuilder`] turns its containers into the text of one script.

use vstd::prelude::*;
use crate::model::{Query, script_text};

pub mod decimal;
pub mod model;
pub mod lua;
pub mod standard;

pub use crate::lua::{Container, LuaType, ScriptContainer, ScriptQuery, ToLua, UsageError};

verus! {

/// Collects containers, and builds the script that they make up.
pub struct LuaBuilder {
    containers: Vec<ScriptContainer>,
}

/// What each container holds, in order.
pub open spec fn container_views(containers: Seq<ScriptContainer>) -> Seq<Seq<Query>> {
    containers.map_values(|c: ScriptContainer| c@)
}

impl View for LuaBuilder {
    type V = Seq<Seq<Query>>;

    closed spec fn view(&self) -> Seq<Seq<Query>> {
        container_views(self.containers@)
    }
}

impl LuaBuilder {
    /// A builder that holds no container.
    pub fn new() -> (builder: LuaBuilder)
        ensures
            builder@ == Seq::<Seq<Query>>::empty(),
    {
        LuaBuilder { containers: Vec::new() }
    }

    /// Puts `container` behind those already held.
    pub fn push_container(&mut self, container: ScriptContainer)
        ensures
            final(self)@ == old(self)@.push(container@),
    {
        self.containers.push(container);
        assert(container_views(old(self).containers@.push(container)) =~= container_views(
            old(self).containers@,
        ).push(container@));
    }

    /// The text of the script: each container's text in the order in which
    /// the containers were put in, each followed by a line break.
    pub fn build_script(&self) -> (output: String)
        ensures
            output@ == script_text(self@),
    {
        let mut output = String::new();
        let mut i: usize = 0;
        while i < self.containers.len()
            invariant
                i <= self.containers.len(),
                output@ == script_text(self@.take(i as int)),
            decreases self.containers.len() - i,
        {
            let text = self.containers[i].to_lua();
            output.append(text.as_str());
            output.append("\n");
            proof {
                let done = self@.take(i + 1);
                assert(done.drop_last() =~= self@.take(i as int));
                assert(done.last() == self.containers[i as int]@);
            }
            i += 1;
        }
        assert(self@.take(i as int) =~= self@);
        output
    }
}

} // verus!
