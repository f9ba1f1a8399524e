use lua_builder::decimal::{int_to_string, nat_to_string};
use lua_builder::{LuaType, ToLua};

#[test]
fn it_works() {
    assert_eq!(2 + 2, 4);
}

#[test]
fn number_renders_in_decimal() {
    assert_eq!(LuaType::Number(5).to_lua(), "5");
    assert_eq!(LuaType::Number(0).to_lua(), "0");
    assert_eq!(LuaType::Number(10).to_lua(), "10");
    assert_eq!(LuaType::Number(1234567890).to_lua(), "1234567890");
}

#[test]
fn negative_number_has_a_minus_sign() {
    assert_eq!(LuaType::Number(-1).to_lua(), "-1");
    assert_eq!(LuaType::Number(-42).to_lua(), "-42");
    assert_eq!(LuaType::Number(-100).to_lua(), "-100");
}

#[test]
fn extreme_numbers_render_like_std() {
    assert_eq!(LuaType::Number(isize::MAX).to_lua(), isize::MAX.to_string());
    assert_eq!(LuaType::Number(isize::MIN).to_lua(), isize::MIN.to_string());
    assert_eq!(LuaType::Number(isize::MIN + 1).to_lua(), (isize::MIN + 1).to_string());
}

#[test]
fn int_to_string_agrees_with_std_around_powers_of_ten() {
    let mut power: isize = 1;
    for _ in 0..9 {
        for delta in [-1isize, 0, 1] {
            let n = power + delta;
            assert_eq!(int_to_string(n), n.to_string());
            assert_eq!(int_to_string(-n), (-n).to_string());
        }
        power *= 10;
    }
}

#[test]
fn nat_to_string_has_no_leading_zeros() {
    assert_eq!(nat_to_string(0), "0");
    assert_eq!(nat_to_string(7), "7");
    assert_eq!(nat_to_string(9), "9");
    assert_eq!(nat_to_string(10), "10");
    assert_eq!(nat_to_string(1001), "1001");
    assert_eq!(nat_to_string(u128::MAX), "340282366920938463463374607431768211455");
}

#[test]
fn every_digit_renders() {
    assert_eq!(nat_to_string(1234567890), "1234567890");
    assert_eq!(int_to_string(-9876543210), "-9876543210");
}

#[test]
fn string_is_put_between_quotes() {
    assert_eq!(LuaType::Str(String::from("hi")).to_lua(), "\"hi\"");
    assert_eq!(LuaType::Str(String::from("a b, c")).to_lua(), "\"a b, c\"");
}

#[test]
fn empty_string_is_two_quotes() {
    assert_eq!(LuaType::Str(String::new()).to_lua(), "\"\"");
}

#[test]
fn string_content_is_kept_as_it_is() {
    assert_eq!(LuaType::Str(String::from("say \"x\"")).to_lua(), "\"say \"x\"\"");
    assert_eq!(LuaType::Str(String::from("h\u{e9}llo")).to_lua(), "\"h\u{e9}llo\"");
}

#[test]
fn boolean_renders_as_word() {
    assert_eq!(LuaType::Boolean(true).to_lua(), "true");
    assert_eq!(LuaType::Boolean(false).to_lua(), "false");
}

#[test]
fn nil_renders_as_nil() {
    assert_eq!(LuaType::Nil.to_lua(), "nil");
}

#[test]
fn variable_renders_as_bare_name() {
    assert_eq!(LuaType::UseVar(String::from("counter")).to_lua(), "counter");
}

#[test]
fn rendering_a_literal_twice_gives_the_same_text() {
    let literals = vec![
        LuaType::Number(-17),
        LuaType::Str(String::from("text")),
        LuaType::Boolean(true),
        LuaType::Nil,
        LuaType::UseVar(String::from("v")),
    ];
    for literal in &literals {
        let first = literal.to_lua();
        let second = literal.to_lua();
        assert_eq!(first, second);
    }
}

#[test]
fn equal_literals_render_alike() {
    let first = LuaType::Str(String::from("same"));
    let second = LuaType::Str(String::from("same"));
    assert_eq!(first, second);
    assert_eq!(first.to_lua(), second.to_lua());
}

#[test]
fn cloned_literal_is_equal_and_renders_alike() {
    let literals = vec![
        LuaType::Number(isize::MIN),
        LuaType::Str(String::from("text")),
        LuaType::Boolean(false),
        LuaType::Nil,
        LuaType::UseVar(String::from("v")),
    ];
    for literal in &literals {
        let copy = literal.clone();
        assert_eq!(&copy, literal);
        assert_eq!(copy.to_lua(), literal.to_lua());
    }
}

#[test]
fn argument_list_is_joined_by_comma_and_space() {
    let arguments = vec![LuaType::Number(1), LuaType::Str(String::from("a")), LuaType::Nil];
    assert_eq!(arguments.to_lua(), "1, \"a\", nil");
}

#[test]
fn single_argument_has_no_separator() {
    let arguments = vec![LuaType::Boolean(true)];
    assert_eq!(arguments.to_lua(), "true");
}

#[test]
fn empty_argument_list_is_empty_text() {
    let arguments: Vec<LuaType> = Vec::new();
    assert_eq!(arguments.to_lua(), "");
}
