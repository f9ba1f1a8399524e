//! Literals, statements and containers, and their rendering to Lua text.

use vstd::prelude::*;
use crate::decimal::int_to_string;
use crate::model::{Literal, Query, literal_text, literal_texts, arguments_text, query_text,
    query_texts, container_text, join, lemma_join_push, declares, declared_in, refers_into,
    some_argument_resolves, query_resolves, script_resolves, lemma_declared_in_concat};

verus! {

/// A value that can be turned into Lua text.
pub trait ToLua {
    /// The Lua text that this value stands for.
    spec fn lua_text(&self) -> Seq<char>;

    /// Renders the value as Lua text.
    fn to_lua(&self) -> (out: String)
        ensures
            out@ == self.lua_text(),
    ;
}

/// A Lua literal.
#[derive(Debug, PartialEq, Eq)]
pub enum LuaType {
    Number(isize),
    Str(String),
    Boolean(bool),
    Nil,
    UseVar(String),
}

impl View for LuaType {
    type V = Literal;

    open spec fn view(&self) -> Literal {
        match self {
            LuaType::Number(n) => Literal::Number(*n as int),
            LuaType::Str(s) => Literal::Str(s@),
            LuaType::Boolean(b) => Literal::Boolean(*b),
            LuaType::Nil => Literal::Nil,
            LuaType::UseVar(name) => Literal::UseVar(name@),
        }
    }
}

impl Clone for LuaType {
    /// A copy that stands for the same literal.
    fn clone(&self) -> (copy: LuaType)
        ensures
            copy@ == self@,
    {
        match self {
            LuaType::Number(n) => LuaType::Number(*n),
            LuaType::Str(s) => LuaType::Str(s.clone()),
            LuaType::Boolean(b) => LuaType::Boolean(*b),
            LuaType::Nil => LuaType::Nil,
            LuaType::UseVar(name) => LuaType::UseVar(name.clone()),
        }
    }
}

impl ToLua for LuaType {
    open spec fn lua_text(&self) -> Seq<char> {
        literal_text(self@)
    }

    fn to_lua(&self) -> (out: String) {
        match self {
            LuaType::Number(n) => int_to_string(*n),
            LuaType::Str(s) => {
                let mut out = String::from_str("\"");
                out.append(s.as_str());
                out.append("\"");
                out
            },
            LuaType::Boolean(b) => {
                if *b {
                    String::from_str("true")
                } else {
                    String::from_str("false")
                }
            },
            LuaType::Nil => String::from_str("nil"),
            LuaType::UseVar(name) => name.clone(),
        }
    }
}

/// Rendering depends on the value alone: two literals that stand for the
/// same value have the same text.
pub proof fn lemma_literal_text_by_value(first: LuaType, second: LuaType)
    requires
        first@ == second@,
    ensures
        first.lua_text() == second.lua_text(),
{
}

/// The model of each literal, in order.
pub open spec fn literal_views(literals: Seq<LuaType>) -> Seq<Literal> {
    literals.map_values(|l: LuaType| l@)
}

impl ToLua for Vec<LuaType> {
    open spec fn lua_text(&self) -> Seq<char> {
        arguments_text(literal_views(self@))
    }

    fn to_lua(&self) -> (out: String) {
        let ghost texts = literal_texts(literal_views(self@));
        let mut out = String::new();
        let mut i: usize = 0;
        while i < self.len()
            invariant
                i <= self.len(),
                texts == literal_texts(literal_views(self@)),
                out@ == join(texts.take(i as int), ", "@),
            decreases self.len() - i,
        {
            if i > 0 {
                out.append(", ");
            }
            let item = self[i].to_lua();
            out.append(item.as_str());
            proof {
                lemma_join_push(texts.take(i as int), ", "@, texts[i as int]);
                assert(texts.take(i as int).push(texts[i as int]) =~= texts.take(i + 1));
            }
            i += 1;
        }
        assert(texts.take(i as int) =~= texts);
        out
    }
}

/// A statement of a script: a variable declaration or a function call.
#[derive(Debug, PartialEq, Eq)]
pub enum ScriptQuery {
    CreateVariable { is_local: bool, name: String, hardcoded: Option<LuaType> },
    CallFunction { name: String, arguments: Vec<LuaType> },
}

impl View for ScriptQuery {
    type V = Query;

    open spec fn view(&self) -> Query {
        match self {
            ScriptQuery::CreateVariable { is_local, name, hardcoded } => Query::CreateVariable {
                is_local: *is_local,
                name: name@,
                hardcoded: match hardcoded {
                    Some(value) => Some(value@),
                    None => None,
                },
            },
            ScriptQuery::CallFunction { name, arguments } => Query::CallFunction {
                name: name@,
                arguments: literal_views(arguments@),
            },
        }
    }
}

impl Clone for ScriptQuery {
    /// A copy that stands for the same statement.
    fn clone(&self) -> (copy: ScriptQuery)
        ensures
            copy@ == self@,
    {
        match self {
            ScriptQuery::CreateVariable { is_local, name, hardcoded } => {
                let value = match hardcoded {
                    Some(value) => Some(value.clone()),
                    None => None,
                };
                ScriptQuery::CreateVariable {
                    is_local: *is_local,
                    name: name.clone(),
                    hardcoded: value,
                }
            },
            ScriptQuery::CallFunction { name, arguments } => {
                let copies = arguments.clone();
                assert(literal_views(copies@) =~= literal_views(arguments@));
                ScriptQuery::CallFunction { name: name.clone(), arguments: copies }
            },
        }
    }
}

impl ToLua for ScriptQuery {
    open spec fn lua_text(&self) -> Seq<char> {
        query_text(self@)
    }

    fn to_lua(&self) -> (out: String) {
        match self {
            ScriptQuery::CreateVariable { is_local, name, hardcoded } => {
                let mut out = String::new();
                if *is_local {
                    out.append("local ");
                }
                out.append(name.as_str());
                if let Some(value) = hardcoded {
                    out.append(" = ");
                    let text = value.to_lua();
                    out.append(text.as_str());
                }
                assert(out@ =~= query_text(self@));
                out
            },
            ScriptQuery::CallFunction { name, arguments } => {
                let mut out = name.clone();
                out.append("(");
                let text = arguments.to_lua();
                out.append(text.as_str());
                out.append(")");
                out
            },
        }
    }
}

/// A misuse of a container.
#[derive(Clone, Copy, Debug, PartialEq, Eq, Structural)]
pub enum UsageError {
    /// A statement was asked of a container that holds none.
    EmptyContainer,
    /// A statement that is no function call was given to be checked.
    NotACall,
}

/// The model of each statement, in order.
pub open spec fn query_views(queries: Seq<ScriptQuery>) -> Seq<Query> {
    queries.map_values(|q: ScriptQuery| q@)
}

/// An ordered collection of statements that can be filled, emptied, merged
/// with another and checked.
pub trait Container: ToLua + Sized {
    /// The statements held, oldest first.
    spec fn queries(&self) -> Seq<Query>;

    /// The text of a container is that of its statements, one per line.
    proof fn text_is_lines(&self)
        ensures
            self.lua_text() == container_text(self.queries()),
    ;

    /// Moves every statement of `other` to the end of this container, in
    /// order, and leaves `other` empty.
    fn merge(&mut self, other: &mut Self)
        ensures
            final(self).queries() == old(self).queries() + old(other).queries(),
            final(self).queries().len() == old(self).queries().len() + old(other).queries().len(),
            final(other).queries() == Seq::<Query>::empty(),
    ;

    /// Whether some call of `other` has an argument naming a variable that is
    /// declared before it, in this container followed by `other`.
    fn verify(&self, other: &Self) -> (resolved: bool)
        ensures
            resolved == script_resolves(self.queries(), other.queries()),
    ;

    /// Renders the container, and empties it.
    fn dump(&mut self) -> (out: String)
        ensures
            out@ == container_text(old(self).queries()),
            final(self).queries() == Seq::<Query>::empty(),
    ;

    /// Puts `query` at the end.
    fn push_query(&mut self, query: ScriptQuery)
        ensures
            final(self).queries() == old(self).queries().push(query@),
    ;

    /// Takes the last statement out. A container that holds none is left as it
    /// is.
    fn pop_query(&mut self) -> (res: Result<ScriptQuery, UsageError>)
        ensures
            old(self).queries().len() == 0 ==> res == Err::<ScriptQuery, UsageError>(
                UsageError::EmptyContainer,
            ) && final(self).queries() == old(self).queries(),
            old(self).queries().len() > 0 ==> res is Ok && res->Ok_0@ == old(self).queries().last()
                && final(self).queries() == old(self).queries().drop_last(),
    ;

    /// Takes every statement out, oldest first.
    fn dump_query(&mut self) -> (out: Vec<ScriptQuery>)
        ensures
            query_views(out@) == old(self).queries(),
            final(self).queries() == Seq::<Query>::empty(),
    ;
}

/// The container of a script's statements.
#[derive(Debug, PartialEq, Eq)]
pub struct ScriptContainer {
    query: Vec<ScriptQuery>,
}

impl View for ScriptContainer {
    type V = Seq<Query>;

    closed spec fn view(&self) -> Seq<Query> {
        query_views(self.query@)
    }
}

impl Clone for ScriptContainer {
    /// A container that holds the same statements.
    fn clone(&self) -> (copy: ScriptContainer)
        ensures
            copy@ == self@,
    {
        let copies = self.query.clone();
        assert(query_views(copies@) =~= query_views(self.query@));
        ScriptContainer { query: copies }
    }
}

impl ToLua for ScriptContainer {
    open spec fn lua_text(&self) -> Seq<char> {
        container_text(self@)
    }

    fn to_lua(&self) -> (out: String) {
        render_queries(&self.query)
    }
}

/// Renders statements one per line.
fn render_queries(queries: &Vec<ScriptQuery>) -> (out: String)
    ensures
        out@ == container_text(query_views(queries@)),
{
    let ghost texts = query_texts(query_views(queries@));
    let mut out = String::new();
    let mut i: usize = 0;
    while i < queries.len()
        invariant
            i <= queries.len(),
            texts == query_texts(query_views(queries@)),
            out@ == join(texts.take(i as int), "\n"@),
        decreases queries.len() - i,
    {
        if i > 0 {
            out.append("\n");
        }
        let line = queries[i].to_lua();
        out.append(line.as_str());
        proof {
            lemma_join_push(texts.take(i as int), "\n"@, texts[i as int]);
            assert(texts.take(i as int).push(texts[i as int]) =~= texts.take(i + 1));
        }
        i += 1;
    }
    assert(texts.take(i as int) =~= texts);
    out
}

/// Whether one of the first `limit` statements declares `name`.
fn declares_name(queries: &Vec<ScriptQuery>, limit: usize, name: &String) -> (found: bool)
    requires
        limit <= queries.len(),
    ensures
        found == declared_in(query_views(queries@).take(limit as int), name@),
{
    let ghost scope = query_views(queries@).take(limit as int);
    let mut j: usize = 0;
    while j < limit
        invariant
            j <= limit <= queries.len(),
            scope == query_views(queries@).take(limit as int),
            forall|k: int| 0 <= k < j ==> !declares(#[trigger] scope[k], name@),
        decreases limit - j,
    {
        if let ScriptQuery::CreateVariable { name: declared, .. } = &queries[j] {
            if *declared == *name {
                assert(declares(scope[j as int], name@));
                return true;
            }
        }
        j += 1;
    }
    false
}

/// Whether one of `arguments` names a variable declared in `base`, or among
/// the first `limit` statements of `added`.
fn arguments_resolve(
    arguments: &Vec<LuaType>,
    base: &Vec<ScriptQuery>,
    added: &Vec<ScriptQuery>,
    limit: usize,
) -> (found: bool)
    requires
        limit <= added.len(),
    ensures
        found == some_argument_resolves(
            literal_views(arguments@),
            query_views(base@) + query_views(added@).take(limit as int),
        ),
{
    let ghost literals = literal_views(arguments@);
    let ghost scope = query_views(base@) + query_views(added@).take(limit as int);
    let mut k: usize = 0;
    while k < arguments.len()
        invariant
            k <= arguments.len(),
            limit <= added.len(),
            literals == literal_views(arguments@),
            scope == query_views(base@) + query_views(added@).take(limit as int),
            forall|m: int| 0 <= m < k ==> !refers_into(#[trigger] literals[m], scope),
        decreases arguments.len() - k,
    {
        if let LuaType::UseVar(name) = &arguments[k] {
            proof {
                lemma_declared_in_concat(
                    query_views(base@),
                    query_views(added@).take(limit as int),
                    name@,
                );
                assert(query_views(base@).take(base.len() as int) =~= query_views(base@));
            }
            if declares_name(base, base.len(), name) || declares_name(added, limit, name) {
                assert(refers_into(literals[k as int], scope));
                return true;
            }
        }
        k += 1;
    }
    false
}

impl ScriptContainer {
    /// A container that holds no statement.
    pub fn new() -> (container: ScriptContainer)
        ensures
            container@ == Seq::<Query>::empty(),
    {
        ScriptContainer { query: Vec::new() }
    }

    /// The number of statements held.
    pub fn len(&self) -> (n: usize)
        ensures
            n == self@.len(),
    {
        self.query.len()
    }

    /// Checks a function call against this container: whether at least one of
    /// its arguments names a variable that the container declares. A statement
    /// that is no call is refused.
    pub fn verify_query(&self, query: &ScriptQuery) -> (res: Result<bool, UsageError>)
        ensures
            query@ is CallFunction ==> res == Ok::<bool, UsageError>(
                query_resolves(self@, query@),
            ),
            !(query@ is CallFunction) ==> res == Err::<bool, UsageError>(UsageError::NotACall),
    {
        match query {
            ScriptQuery::CallFunction { arguments, .. } => {
                let nothing: Vec<ScriptQuery> = Vec::new();
                assert(query_views(self.query@) + query_views(nothing@).take(0) =~= self@);
                Ok(arguments_resolve(arguments, &self.query, &nothing, 0))
            },
            ScriptQuery::CreateVariable { .. } => Err(UsageError::NotACall),
        }
    }
}

impl Container for ScriptContainer {
    open spec fn queries(&self) -> Seq<Query> {
        self@
    }

    proof fn text_is_lines(&self) {
    }

    fn merge(&mut self, other: &mut Self) {
        self.query.append(&mut other.query);
        assert(query_views(old(self).query@ + old(other).query@) =~= query_views(old(self).query@)
            + query_views(old(other).query@));
    }

    fn verify(&self, other: &Self) -> (resolved: bool) {
        let mut i: usize = 0;
        while i < other.query.len()
            invariant
                i <= other.query.len(),
                forall|m: int|
                    0 <= m < i ==> !query_resolves(self@ + other@.take(m), #[trigger] other@[m]),
            decreases other.query.len() - i,
        {
            if let ScriptQuery::CallFunction { arguments, .. } = &other.query[i] {
                if arguments_resolve(arguments, &self.query, &other.query, i) {
                    assert(query_resolves(self@ + other@.take(i as int), other@[i as int]));
                    return true;
                }
            }
            i += 1;
        }
        false
    }

    fn dump(&mut self) -> (out: String) {
        let out = render_queries(&self.query);
        self.query.clear();
        out
    }

    fn push_query(&mut self, query: ScriptQuery) {
        self.query.push(query);
        assert(query_views(old(self).query@.push(query)) =~= query_views(old(self).query@).push(
            query@,
        ));
    }

    fn pop_query(&mut self) -> (res: Result<ScriptQuery, UsageError>) {
        match self.query.pop() {
            Some(query) => {
                assert(query_views(self.query@) =~= query_views(old(self).query@).drop_last());
                Ok(query)
            },
            None => Err(UsageError::EmptyContainer),
        }
    }

    fn dump_query(&mut self) -> (out: Vec<ScriptQuery>) {
        let mut out: Vec<ScriptQuery> = Vec::new();
        out.append(&mut self.query);
        assert(out@ =~= old(self).query@);
        out
    }
}

} // verus!
