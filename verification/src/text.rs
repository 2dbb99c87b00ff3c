//! Rendering a chromosome as text.
//!
//! A tree renders in two ways: as an infix expression, for display, and as a
//! nested JSON object with fields `action`, `arg1`, `arg2`.  The JSON form
//! leaves out `arg2` for `sin` and `cos`, although the tree itself always
//! carries both children: the second child of those two operators is
//! allocated but ignored.

use vstd::prelude::*;
use vstd::string::StringExecFns;
use crate::tree::Action;
use crate::tree::Node;

verus! {

/// The digit character of a value below ten.
pub open spec fn decimal_digit(d: nat) -> char {
    if d == 0 {
        '0'
    } else if d == 1 {
        '1'
    } else if d == 2 {
        '2'
    } else if d == 3 {
        '3'
    } else if d == 4 {
        '4'
    } else if d == 5 {
        '5'
    } else if d == 6 {
        '6'
    } else if d == 7 {
        '7'
    } else if d == 8 {
        '8'
    } else {
        '9'
    }
}

/// The decimal digits of a number, most significant first.
pub open spec fn spec_decimal(n: nat) -> Seq<char>
    decreases n,
{
    if n < 10 {
        seq![decimal_digit(n)]
    } else {
        spec_decimal(n / 10).push(decimal_digit(n % 10))
    }
}

/// The one-character string of a digit.
fn digit_str(d: u64) -> (r: &'static str)
    requires
        d < 10,
    ensures
        r@ == seq![decimal_digit(d as nat)],
{
    proof {
        reveal_strlit("0");
        reveal_strlit("1");
        reveal_strlit("2");
        reveal_strlit("3");
        reveal_strlit("4");
        reveal_strlit("5");
        reveal_strlit("6");
        reveal_strlit("7");
        reveal_strlit("8");
        reveal_strlit("9");
    }
    if d == 0 {
        "0"
    } else if d == 1 {
        "1"
    } else if d == 2 {
        "2"
    } else if d == 3 {
        "3"
    } else if d == 4 {
        "4"
    } else if d == 5 {
        "5"
    } else if d == 6 {
        "6"
    } else if d == 7 {
        "7"
    } else if d == 8 {
        "8"
    } else {
        "9"
    }
}

/// Writes a number in decimal.
pub fn u64_to_string(n: u64) -> (r: String)
    ensures
        r@ == spec_decimal(n as nat),
    decreases n,
{
    if n < 10 {
        String::from_str(digit_str(n))
    } else {
        let prefix = u64_to_string(n / 10);
        prefix.concat(digit_str(n % 10))
    }
}

/// The infix rendering of a tree: binary operators parenthesised with the
/// symbol between the operands, `sin` and `cos` shown with their first
/// operand alone, `exp` shown with both, a number in decimal, the variable
/// as its letter.  An unknown operator renders as nothing, an operator
/// missing a child as a bracketed error mark.
pub open spec fn tree_text(t: Node) -> Seq<char>
    decreases t,
{
    match t.action {
        Action::Function(name) => {
            if t.arg1 is Some && t.arg2 is Some {
                let text1 = tree_text(*t.arg1->0);
                let text2 = tree_text(*t.arg2->0);
                if name@ == "+"@ {
                    "("@ + text1 + " + "@ + text2 + ")"@
                } else if name@ == "-"@ {
                    "("@ + text1 + " - "@ + text2 + ")"@
                } else if name@ == "*"@ {
                    "("@ + text1 + " * "@ + text2 + ")"@
                } else if name@ == "/"@ {
                    "("@ + text1 + " / "@ + text2 + ")"@
                } else if name@ == "sin"@ {
                    "sin("@ + text1 + ")"@
                } else if name@ == "cos"@ {
                    "cos("@ + text1 + ")"@
                } else if name@ == "exp"@ {
                    "exp("@ + text1 + ", "@ + text2 + ")"@
                } else {
                    ""@
                }
            } else {
                "(error)"@
            }
        },
        Action::Terminal(value) => spec_decimal(value as nat),
        Action::X => "x"@,
    }
}

/// The JSON rendering of a tree: an object whose `action` field holds the
/// operator symbol, the variable's letter, or the bare number, and whose
/// `arg1` and `arg2` fields hold the operand objects.  `sin` and `cos` leave
/// out `arg2`, though the tree carries it.  An unknown operator renders as
/// nothing, an operator missing a child as a bracketed error mark.
pub open spec fn tree_json(t: Node) -> Seq<char>
    decreases t,
{
    match t.action {
        Action::Function(name) => {
            if t.arg1 is Some && t.arg2 is Some {
                let json1 = tree_json(*t.arg1->0);
                let json2 = tree_json(*t.arg2->0);
                if name@ == "+"@ {
                    "{\"action\":\"+\",\"arg1\":"@ + json1 + ",\"arg2\":"@ + json2 + "}"@
                } else if name@ == "-"@ {
                    "{\"action\":\"-\",\"arg1\":"@ + json1 + ",\"arg2\":"@ + json2 + "}"@
                } else if name@ == "*"@ {
                    "{\"action\":\"*\",\"arg1\":"@ + json1 + ",\"arg2\":"@ + json2 + "}"@
                } else if name@ == "/"@ {
                    "{\"action\":\"/\",\"arg1\":"@ + json1 + ",\"arg2\":"@ + json2 + "}"@
                } else if name@ == "sin"@ {
                    "{\"action\":\"sin\",\"arg1\":"@ + json1 + "}"@
                } else if name@ == "cos"@ {
                    "{\"action\":\"cos\",\"arg1\":"@ + json1 + "}"@
                } else if name@ == "exp"@ {
                    "{\"action\":\"exp\",\"arg1\":"@ + json1 + ",\"arg2\":"@ + json2 + "}"@
                } else {
                    ""@
                }
            } else {
                "(error)"@
            }
        },
        Action::Terminal(value) => "{\"action\":"@ + spec_decimal(value as nat) + "}"@,
        Action::X => "{\"action\":\"x\"}"@,
    }
}

/// How long a rendering a number has: at least one digit, and more than
/// one from ten upward.
pub proof fn lemma_decimal_len(n: nat)
    ensures
        spec_decimal(n).len() >= 1,
        n >= 10 ==> spec_decimal(n).len() >= 2,
    decreases n,
{
    if n >= 10 {
        lemma_decimal_len(n / 10);
    }
}

/// Each number has one decimal rendering: equal digit strings come only
/// from equal numbers.
pub proof fn lemma_decimal_injective(a: nat, b: nat)
    requires
        spec_decimal(a) == spec_decimal(b),
    ensures
        a == b,
    decreases a,
{
    lemma_decimal_len(a);
    lemma_decimal_len(b);
    if a < 10 && b < 10 {
        assert(seq![decimal_digit(a)][0] == decimal_digit(a));
        assert(seq![decimal_digit(b)][0] == decimal_digit(b));
        assert(spec_decimal(a)[0] == spec_decimal(b)[0]);
        assert(decimal_digit(a) == decimal_digit(b));
    } else if a < 10 || b < 10 {
        // a one-digit rendering cannot equal a longer one
        assert(spec_decimal(a).len() == spec_decimal(b).len());
        assert(false);
    } else {
        assert(spec_decimal(a / 10).push(decimal_digit(a % 10)).last() == decimal_digit(a % 10));
        assert(spec_decimal(b / 10).push(decimal_digit(b % 10)).last() == decimal_digit(b % 10));
        assert(spec_decimal(a).last() == spec_decimal(b).last());
        assert(decimal_digit(a % 10) == decimal_digit(b % 10));
        assert(a % 10 == b % 10);
        assert(spec_decimal(a).drop_last() =~= spec_decimal(a / 10));
        assert(spec_decimal(b).drop_last() =~= spec_decimal(b / 10));
        lemma_decimal_injective(a / 10, b / 10);
        vstd::arithmetic::div_mod::lemma_fundamental_div_mod(a as int, 10);
        vstd::arithmetic::div_mod::lemma_fundamental_div_mod(b as int, 10);
    }
}

/// The operator symbol a node carries, where it carries one.
pub open spec fn action_name(a: Action) -> Seq<char> {
    match a {
        Action::Function(name) => name@,
        _ => Seq::empty(),
    }
}

/// The JSON rendering of a `sin` or `cos` node does not depend on the
/// node's second child: the encoding is lossy exactly there.
pub proof fn lemma_json_hides_second_child(a: Node, b: Node)
    requires
        a.action is Function,
        b.action is Function,
        action_name(a.action) == action_name(b.action),
        action_name(a.action) == "sin"@ || action_name(a.action) == "cos"@,
        a.arg1 == b.arg1,
        a.arg1 is Some,
        a.arg2 is Some,
        b.arg2 is Some,
    ensures
        tree_json(a) == tree_json(b),
{
    lemma_sin_cos_distinct();
}

/// The infix rendering of a `sin` or `cos` node does not depend on the
/// node's second child either.
pub proof fn lemma_text_hides_second_child(a: Node, b: Node)
    requires
        a.action is Function,
        b.action is Function,
        action_name(a.action) == action_name(b.action),
        action_name(a.action) == "sin"@ || action_name(a.action) == "cos"@,
        a.arg1 == b.arg1,
        a.arg1 is Some,
        a.arg2 is Some,
        b.arg2 is Some,
    ensures
        tree_text(a) == tree_text(b),
{
    lemma_sin_cos_distinct();
}

/// The two one-operand symbols differ from the four binary operator
/// symbols, so a rendering branches on them alone.
proof fn lemma_sin_cos_distinct()
    ensures
        "sin"@ != "+"@ && "sin"@ != "-"@ && "sin"@ != "*"@ && "sin"@ != "/"@,
        "cos"@ != "+"@ && "cos"@ != "-"@ && "cos"@ != "*"@ && "cos"@ != "/"@,
{
    reveal_strlit("+");
    reveal_strlit("-");
    reveal_strlit("*");
    reveal_strlit("/");
    reveal_strlit("sin");
    reveal_strlit("cos");
    assert("sin"@.len() == 3 && "cos"@.len() == 3);
    assert("+"@.len() == 1 && "-"@.len() == 1 && "*"@.len() == 1 && "/"@.len() == 1);
}

impl Node {
    /// Renders the tree as an infix expression.
    pub fn chromosome_to_string(&self) -> (r: String)
        ensures
            r@ == tree_text(*self),
        decreases *self,
    {
        match &self.action {
            Action::Function(name) => {
                match (&self.arg1, &self.arg2) {
                    (Some(arg1), Some(arg2)) => {
                        let text1 = arg1.chromosome_to_string();
                        let text2 = arg2.chromosome_to_string();
                        if *name == String::from_str("+") {
                            String::from_str("(").concat(text1.as_str()).concat(" + ").concat(
                                text2.as_str(),
                            ).concat(")")
                        } else if *name == String::from_str("-") {
                            String::from_str("(").concat(text1.as_str()).concat(" - ").concat(
                                text2.as_str(),
                            ).concat(")")
                        } else if *name == String::from_str("*") {
                            String::from_str("(").concat(text1.as_str()).concat(" * ").concat(
                                text2.as_str(),
                            ).concat(")")
                        } else if *name == String::from_str("/") {
                            String::from_str("(").concat(text1.as_str()).concat(" / ").concat(
                                text2.as_str(),
                            ).concat(")")
                        } else if *name == String::from_str("sin") {
                            String::from_str("sin(").concat(text1.as_str()).concat(")")
                        } else if *name == String::from_str("cos") {
                            String::from_str("cos(").concat(text1.as_str()).concat(")")
                        } else if *name == String::from_str("exp") {
                            String::from_str("exp(").concat(text1.as_str()).concat(", ").concat(
                                text2.as_str(),
                            ).concat(")")
                        } else {
                            String::from_str("")
                        }
                    },
                    _ => String::from_str("(error)"),
                }
            },
            Action::Terminal(value) => u64_to_string(*value),
            Action::X => String::from_str("x"),
        }
    }

    /// Renders the tree as a nested JSON object.
    pub fn chromosome_to_json(&self) -> (r: String)
        ensures
            r@ == tree_json(*self),
        decreases *self,
    {
        match &self.action {
            Action::Function(name) => {
                match (&self.arg1, &self.arg2) {
                    (Some(arg1), Some(arg2)) => {
                        let json1 = arg1.chromosome_to_json();
                        let json2 = arg2.chromosome_to_json();
                        if *name == String::from_str("+") {
                            String::from_str("{\"action\":\"+\",\"arg1\":").concat(
                                json1.as_str(),
                            ).concat(",\"arg2\":").concat(json2.as_str()).concat("}")
                        } else if *name == String::from_str("-") {
                            String::from_str("{\"action\":\"-\",\"arg1\":").concat(
                                json1.as_str(),
                            ).concat(",\"arg2\":").concat(json2.as_str()).concat("}")
                        } else if *name == String::from_str("*") {
                            String::from_str("{\"action\":\"*\",\"arg1\":").concat(
                                json1.as_str(),
                            ).concat(",\"arg2\":").concat(json2.as_str()).concat("}")
                        } else if *name == String::from_str("/") {
                            String::from_str("{\"action\":\"/\",\"arg1\":").concat(
                                json1.as_str(),
                            ).concat(",\"arg2\":").concat(json2.as_str()).concat("}")
                        } else if *name == String::from_str("sin") {
                            String::from_str("{\"action\":\"sin\",\"arg1\":").concat(
                                json1.as_str(),
                            ).concat("}")
                        } else if *name == String::from_str("cos") {
                            String::from_str("{\"action\":\"cos\",\"arg1\":").concat(
                                json1.as_str(),
                            ).concat("}")
                        } else if *name == String::from_str("exp") {
                            String::from_str("{\"action\":\"exp\",\"arg1\":").concat(
                                json1.as_str(),
                            ).concat(",\"arg2\":").concat(json2.as_str()).concat("}")
                        } else {
                            String::from_str("")
                        }
                    },
                    _ => String::from_str("(error)"),
                }
            },
            Action::Terminal(value) => {
                String::from_str("{\"action\":").concat(u64_to_string(*value).as_str()).concat(
                    "}",
                )
            },
            Action::X => String::from_str("{\"action\":\"x\"}"),
        }
    }
}

} // verus!
