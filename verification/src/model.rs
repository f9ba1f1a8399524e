//! The mathematical model of a script: what each value is, and the text it
//! stands for.

use vstd::prelude::*;
use crate::decimal::int_text;

verus! {

/// A Lua literal, as a mathematical value.
pub enum Literal {
    Number(int),
    Str(Seq<char>),
    Boolean(bool),
    Nil,
    UseVar(Seq<char>),
}

/// A statement of a script, as a mathematical value.
pub enum Query {
    CreateVariable { is_local: bool, name: Seq<char>, hardcoded: Option<Literal> },
    CallFunction { name: Seq<char>, arguments: Seq<Literal> },
}

/// The parts in order, with `sep` between each two neighbours.
pub open spec fn join(parts: Seq<Seq<char>>, sep: Seq<char>) -> Seq<char>
    decreases parts.len(),
{
    if parts.len() == 0 {
        Seq::empty()
    } else if parts.len() == 1 {
        parts[0]
    } else {
        join(parts.drop_last(), sep) + sep + parts.last()
    }
}

/// The text of a literal. A string is put between double quotes as it is;
/// a variable is its bare name.
pub open spec fn literal_text(literal: Literal) -> Seq<char> {
    match literal {
        Literal::Number(n) => int_text(n),
        Literal::Str(s) => "\""@ + s + "\""@,
        Literal::Boolean(b) => if b {
            "true"@
        } else {
            "false"@
        },
        Literal::Nil => "nil"@,
        Literal::UseVar(name) => name,
    }
}

/// The text of each literal, in order.
pub open spec fn literal_texts(literals: Seq<Literal>) -> Seq<Seq<char>> {
    literals.map_values(|l: Literal| literal_text(l))
}

/// The text of an argument list: the literals' texts, joined by a comma and a
/// space.
pub open spec fn arguments_text(arguments: Seq<Literal>) -> Seq<char> {
    join(literal_texts(arguments), ", "@)
}

/// The text of a statement.
///
/// A declaration is `local ` if it is local, then the name, then ` = ` and
/// the initial value if it has one. A call is the name, then the arguments
/// between round brackets.
pub open spec fn query_text(query: Query) -> Seq<char> {
    match query {
        Query::CreateVariable { is_local, name, hardcoded } => {
            let prefix = if is_local {
                "local "@
            } else {
                Seq::empty()
            };
            let suffix = match hardcoded {
                Some(value) => " = "@ + literal_text(value),
                None => Seq::empty(),
            };
            prefix + name + suffix
        },
        Query::CallFunction { name, arguments } => name + "("@ + arguments_text(arguments) + ")"@,
    }
}

/// The text of each statement, in order.
pub open spec fn query_texts(queries: Seq<Query>) -> Seq<Seq<char>> {
    queries.map_values(|q: Query| query_text(q))
}

/// The text of a container: one statement per line, with a line break
/// between each two and none at the end.
pub open spec fn container_text(queries: Seq<Query>) -> Seq<char> {
    join(query_texts(queries), "\n"@)
}

/// The text of a whole script: each container's text, followed by a line
/// break.
pub open spec fn script_text(containers: Seq<Seq<Query>>) -> Seq<char>
    decreases containers.len(),
{
    if containers.len() == 0 {
        Seq::empty()
    } else {
        script_text(containers.drop_last()) + container_text(containers.last()) + "\n"@
    }
}

/// Whether `query` declares the variable `name`.
pub open spec fn declares(query: Query, name: Seq<char>) -> bool {
    query matches Query::CreateVariable { name: declared, .. } && declared == name
}

/// Whether some statement of `queries` declares the variable `name`.
pub open spec fn declared_in(queries: Seq<Query>, name: Seq<char>) -> bool {
    exists|j: int| 0 <= j < queries.len() && declares(#[trigger] queries[j], name)
}

/// Whether `literal` names a variable that `scope` declares.
pub open spec fn refers_into(literal: Literal, scope: Seq<Query>) -> bool {
    literal matches Literal::UseVar(name) && declared_in(scope, name)
}

/// Whether at least one of `arguments` names a variable that `scope`
/// declares.
pub open spec fn some_argument_resolves(arguments: Seq<Literal>, scope: Seq<Query>) -> bool {
    exists|k: int| 0 <= k < arguments.len() && refers_into(#[trigger] arguments[k], scope)
}

/// Whether `query` is a call with at least one argument that names a
/// variable declared in `scope`.
pub open spec fn query_resolves(scope: Seq<Query>, query: Query) -> bool {
    query matches Query::CallFunction { arguments, .. } && some_argument_resolves(arguments, scope)
}

/// Whether some call of `added` has an argument naming a variable that is
/// declared before that call, in `base` followed by `added`.
pub open spec fn script_resolves(base: Seq<Query>, added: Seq<Query>) -> bool {
    exists|i: int|
        0 <= i < added.len() && query_resolves(base + added.take(i), #[trigger] added[i])
}

/// Joining one more part puts the separator before it, unless it is the
/// first.
pub proof fn lemma_join_push(parts: Seq<Seq<char>>, sep: Seq<char>, part: Seq<char>)
    ensures
        join(parts.push(part), sep) == if parts.len() == 0 {
            part
        } else {
            join(parts, sep) + sep + part
        },
{
    assert(parts.push(part).drop_last() =~= parts);
}

/// Joining two runs of parts put together gives the two joined runs with one
/// separator between them; an empty run adds nothing, not even a separator.
pub proof fn lemma_join_concat(first: Seq<Seq<char>>, second: Seq<Seq<char>>, sep: Seq<char>)
    ensures
        join(first + second, sep) == if first.len() == 0 {
            join(second, sep)
        } else if second.len() == 0 {
            join(first, sep)
        } else {
            join(first, sep) + sep + join(second, sep)
        },
    decreases second.len(),
{
    if first.len() == 0 {
        assert(first + second =~= second);
    } else if second.len() == 0 {
        assert(first + second =~= first);
    } else {
        let head = second.drop_last();
        let last = second.last();
        lemma_join_concat(first, head, sep);
        assert(first + second =~= (first + head).push(last));
        lemma_join_push(first + head, sep, last);
        assert(second =~= head.push(last));
        lemma_join_push(head, sep, last);
        if head.len() > 0 {
            assert(join(first, sep) + sep + join(head, sep) + sep + last =~= join(first, sep) + sep
                + (join(head, sep) + sep + last));
        }
    }
}

/// The text of two runs of statements put together, as a merge does: the
/// first run's text, a line break, and the second run's text; an empty run
/// adds nothing.
pub proof fn lemma_container_text_concat(first: Seq<Query>, second: Seq<Query>)
    ensures
        container_text(first + second) == if first.len() == 0 {
            container_text(second)
        } else if second.len() == 0 {
            container_text(first)
        } else {
            container_text(first) + "\n"@ + container_text(second)
        },
{
    assert(query_texts(first + second) =~= query_texts(first) + query_texts(second));
    lemma_join_concat(query_texts(first), query_texts(second), "\n"@);
}

/// A name is declared in two sequences put together exactly when one of the
/// two declares it.
pub proof fn lemma_declared_in_concat(first: Seq<Query>, second: Seq<Query>, name: Seq<char>)
    ensures
        declared_in(first + second, name) <==> declared_in(first, name) || declared_in(
            second,
            name,
        ),
{
    let both = first + second;
    if declared_in(first, name) {
        let j = choose|j: int| 0 <= j < first.len() && declares(#[trigger] first[j], name);
        assert(both[j] == first[j]);
    }
    if declared_in(second, name) {
        let j = choose|j: int| 0 <= j < second.len() && declares(#[trigger] second[j], name);
        assert(both[first.len() + j] == second[j]);
    }
    if declared_in(both, name) {
        let j = choose|j: int| 0 <= j < both.len() && declares(#[trigger] both[j], name);
        if j < first.len() {
            assert(first[j] == both[j]);
        } else {
            assert(second[j - first.len()] == both[j]);
        }
    }
}

} // verus!
