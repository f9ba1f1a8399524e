//! Ready-made statements for common Lua idioms.

use vstd::prelude::*;
use crate::lua::{LuaType, ScriptQuery, ToLua};
use crate::model::{Literal, Query};

verus! {

/// A call of Lua's `print` with `text` as its one argument, a string.
pub fn print(text: &str) -> (query: ScriptQuery)
    ensures
        query@ == (Query::CallFunction { name: "print"@, arguments: seq![Literal::Str(text@)] }),
        query.lua_text() == "print(\""@ + text@ + "\")"@,
{
    let mut arguments: Vec<LuaType> = Vec::new();
    arguments.push(LuaType::Str(String::from_str(text)));
    let query = ScriptQuery::CallFunction { name: String::from_str("print"), arguments };
    proof {
        reveal_strlit("print");
        reveal_strlit("(");
        reveal_strlit(")");
        reveal_strlit("\"");
        reveal_strlit("print(\"");
        reveal_strlit("\")");
        assert(query@->arguments =~= seq![Literal::Str(text@)]);
        assert(query.lua_text() =~= "print(\""@ + text@ + "\")"@);
    }
    query
}

} // verus!
