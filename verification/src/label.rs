//! Product names for system versions.
//!
//! A version is named by an ordered list of rules, of which the first that
//! applies decides. Three releases have a name of their own, every other
//! release after the baseline is named by its numbers, and whatever is left
//! carries the name of the baseline release.

use vstd::prelude::*;
use vstd::string::*;

verus! {

/// The character that stands for the decimal digit `d`.
pub open spec fn digit_char(d: nat) -> char
    recommends
        d < 10,
{
    ('0' as nat + d) as char
}

/// The decimal numeral of `n`: most significant digit first, no sign, no
/// padding, and a single `0` for zero.
pub open spec fn decimal_text(n: nat) -> Seq<char>
    decreases n,
{
    if n < 10 {
        seq![digit_char(n)]
    } else {
        decimal_text(n / 10).push(digit_char(n % 10))
    }
}

/// The number that a string of digits denotes.
pub open spec fn decimal_value(text: Seq<char>) -> nat
    decreases text.len(),
{
    if text.len() == 0 {
        0
    } else {
        decimal_value(text.drop_last()) * 10 + (text.last() as nat - '0' as nat) as nat
    }
}

/// A number below ten takes one digit, and any other number at least two.
pub proof fn lemma_decimal_text_len(n: nat)
    ensures
        n < 10 ==> decimal_text(n).len() == 1,
        n >= 10 ==> decimal_text(n).len() >= 2,
    decreases n,
{
    if n >= 10 {
        lemma_decimal_text_len(n / 10);
    }
}

/// Every character of a numeral is one of the ten digits.
pub proof fn lemma_decimal_text_digits(n: nat, i: int)
    requires
        0 <= i < decimal_text(n).len(),
    ensures
        '0' <= decimal_text(n)[i] <= '9',
    decreases n,
{
    if n >= 10 {
        if i < decimal_text(n / 10).len() {
            lemma_decimal_text_digits(n / 10, i);
        }
    }
}

/// Only the numeral of zero begins with the digit zero.
pub proof fn lemma_decimal_text_no_leading_zero(n: nat)
    requires
        n > 0,
    ensures
        decimal_text(n)[0] != '0',
    decreases n,
{
    if n >= 10 {
        lemma_decimal_text_len(n / 10);
        lemma_decimal_text_no_leading_zero(n / 10);
    }
}

/// A numeral denotes the number it was written for.
pub proof fn lemma_decimal_text_reads_back(n: nat)
    ensures
        decimal_value(decimal_text(n)) == n,
    decreases n,
{
    let text = decimal_text(n);
    if n < 10 {
        assert(text.drop_last() =~= Seq::<char>::empty());
        reveal_with_fuel(decimal_value, 2);
    } else {
        lemma_decimal_text_reads_back(n / 10);
        assert(text.drop_last() =~= decimal_text(n / 10));
        assert(text.last() == digit_char(n % 10));
    }
}

fn digit_str(d: u32) -> (text: &'static str)
    requires
        d < 10,
    ensures
        text@ == seq![digit_char(d as nat)],
{
    proof {
        reveal_strlit("0");
        reveal_strlit("1");
        reveal_strlit("2");
        reveal_strlit("3");
        reveal_strlit("4");
        reveal_strlit("5");
        reveal_strlit("6");
        reveal_strlit("7");
        reveal_strlit("8");
        reveal_strlit("9");
    }
    let text = if d == 0 {
        "0"
    } else if d == 1 {
        "1"
    } else if d == 2 {
        "2"
    } else if d == 3 {
        "3"
    } else if d == 4 {
        "4"
    } else if d == 5 {
        "5"
    } else if d == 6 {
        "6"
    } else if d == 7 {
        "7"
    } else if d == 8 {
        "8"
    } else {
        "9"
    };
    assert(text@ =~= seq![digit_char(d as nat)]);
    text
}

/// Writes `n` in decimal.
pub fn decimal_string(n: u32) -> (text: String)
    ensures
        text@ == decimal_text(n as nat),
    decreases n,
{
    if n < 10 {
        String::from_str(digit_str(n))
    } else {
        let mut text = decimal_string(n / 10);
        text.append(digit_str(n % 10));
        assert(text@ =~= decimal_text(n as nat));
        text
    }
}

/// The naming rules, in the order in which they are tried.
#[derive(Clone, Copy, Debug, PartialEq, Eq, Structural)]
pub enum LabelRule {
    /// Version 6.2.
    Windows8,
    /// Version 6.3.
    Windows81,
    /// Version 10.0.
    Windows10,
    /// Any other version after the baseline, named by its numbers.
    Numbered,
    /// Whatever no earlier rule has taken.
    Windows7,
}

impl LabelRule {
    /// The rule's place in the order: a rule with a smaller position is tried
    /// first.
    pub open spec fn position(self) -> nat {
        match self {
            LabelRule::Windows8 => 0,
            LabelRule::Windows81 => 1,
            LabelRule::Windows10 => 2,
            LabelRule::Numbered => 3,
            LabelRule::Windows7 => 4,
        }
    }

    /// The rule's own condition, taken without regard to the rules before it.
    pub open spec fn applies(self, major: u32, minor: u32) -> bool {
        match self {
            LabelRule::Windows8 => major == 6 && minor == 2,
            LabelRule::Windows81 => major == 6 && minor == 3,
            LabelRule::Windows10 => major == 10 && minor == 0,
            LabelRule::Numbered => major > 6 || (major == 6 && minor > 1),
            LabelRule::Windows7 => true,
        }
    }

    /// The rule is the first in the order that applies to the version.
    pub open spec fn is_first_match(self, major: u32, minor: u32) -> bool {
        &&& self.applies(major, minor)
        &&& forall|earlier: LabelRule|
            earlier.position() < self.position() ==> !#[trigger] earlier.applies(major, minor)
    }

    /// The rule that names the version.
    pub open spec fn selected(major: u32, minor: u32) -> LabelRule {
        if major == 6 && minor == 2 {
            LabelRule::Windows8
        } else if major == 6 && minor == 3 {
            LabelRule::Windows81
        } else if major == 10 && minor == 0 {
            LabelRule::Windows10
        } else if major > 6 || (major == 6 && minor > 1) {
            LabelRule::Numbered
        } else {
            LabelRule::Windows7
        }
    }

    /// The name that the rule gives to the version.
    pub open spec fn text(self, major: u32, minor: u32) -> Seq<char> {
        match self {
            LabelRule::Windows8 => "Windows 8"@,
            LabelRule::Windows81 => "Windows 8.1"@,
            LabelRule::Windows10 => "Windows 10/11"@,
            LabelRule::Numbered => "Windows "@ + decimal_text(major as nat) + "."@
                + decimal_text(minor as nat),
            LabelRule::Windows7 => "Windows 7"@,
        }
    }

    /// Picks the rule that names the version: the first one, in order, whose
    /// condition holds.
    pub fn select(major: u32, minor: u32) -> (rule: LabelRule)
        ensures
            rule == LabelRule::selected(major, minor),
            rule.is_first_match(major, minor),
    {
        if major == 6 && minor == 2 {
            LabelRule::Windows8
        } else if major == 6 && minor == 3 {
            LabelRule::Windows81
        } else if major == 10 && minor == 0 {
            LabelRule::Windows10
        } else if major > 6 || (major == 6 && minor > 1) {
            LabelRule::Numbered
        } else {
            LabelRule::Windows7
        }
    }

    /// Exactly one rule is the first match of a version, and it is the
    /// selected one.
    pub proof fn lemma_selected_is_the_first_match(self, major: u32, minor: u32)
        ensures
            self.is_first_match(major, minor) <==> self == LabelRule::selected(major, minor),
    {
        let chosen = LabelRule::selected(major, minor);
        assert(chosen.is_first_match(major, minor));
        if self.is_first_match(major, minor) && self != chosen {
            if self.position() < chosen.position() {
                assert(!self.applies(major, minor));
            } else {
                assert(chosen.position() < self.position());
                assert(!chosen.applies(major, minor));
            }
        }
    }

    /// The last rule is reached exactly by the versions that are not newer
    /// than the baseline; every rule before it takes newer versions only.
    pub proof fn lemma_last_rule_iff_legacy(major: u32, minor: u32)
        ensures
            LabelRule::selected(major, minor) == LabelRule::Windows7 <==> (major < 6 || (major == 6
                && minor <= 1)),
    {
    }
}

/// The product name of a version.
pub open spec fn label_text(major: u32, minor: u32) -> Seq<char> {
    LabelRule::selected(major, minor).text(major, minor)
}

/// The name of the baseline release is given to the versions that are not
/// newer than the baseline, and to no other: the name alone tells the two
/// kinds apart.
pub proof fn lemma_baseline_name_iff_legacy(major: u32, minor: u32)
    ensures
        label_text(major, minor) == "Windows 7"@ <==> (major < 6 || (major == 6 && minor <= 1)),
{
    reveal_strlit("Windows 7");
    reveal_strlit("Windows 8");
    reveal_strlit("Windows 8.1");
    reveal_strlit("Windows 10/11");
    reveal_strlit("Windows ");
    reveal_strlit(".");
    let text = label_text(major, minor);
    match LabelRule::selected(major, minor) {
        LabelRule::Windows8 => {
            assert(text[8] == '8');
        },
        LabelRule::Windows81 => {
            assert(text.len() == 11);
        },
        LabelRule::Windows10 => {
            assert(text.len() == 13);
        },
        LabelRule::Numbered => {
            lemma_decimal_text_len(major as nat);
            lemma_decimal_text_len(minor as nat);
            assert(text.len() >= 11);
        },
        LabelRule::Windows7 => {},
    }
}

/// Names the version `major.minor`. Every pair of numbers has a name, and the
/// name depends on the two numbers alone.
pub fn label(major: u32, minor: u32) -> (text: String)
    ensures
        text@ == label_text(major, minor),
        major == 6 && minor == 2 ==> text@ == "Windows 8"@,
        major == 6 && minor == 3 ==> text@ == "Windows 8.1"@,
        major == 10 && minor == 0 ==> text@ == "Windows 10/11"@,
        major < 6 || (major == 6 && minor <= 1) ==> text@ == "Windows 7"@,
        (major > 6 || (major == 6 && minor > 1)) && !(major == 6 && minor == 2) && !(major == 6
            && minor == 3) && !(major == 10 && minor == 0) ==> text@ == "Windows "@ + decimal_text(
            major as nat,
        ) + "."@ + decimal_text(minor as nat),
{
    match LabelRule::select(major, minor) {
        LabelRule::Windows8 => String::from_str("Windows 8"),
        LabelRule::Windows81 => String::from_str("Windows 8.1"),
        LabelRule::Windows10 => String::from_str("Windows 10/11"),
        LabelRule::Numbered => {
            let mut text = String::from_str("Windows ");
            let major_text = decimal_string(major);
            text.append(major_text.as_str());
            text.append(".");
            let minor_text = decimal_string(minor);
            text.append(minor_text.as_str());
            text
        },
        LabelRule::Windows7 => String::from_str("Windows 7"),
    }
}

} // verus!
