use vstd::prelude::*;
use vstd::string::StringExecFns;

use crate::value::Value;

verus! {

/// One lesson of the curriculum.
///
/// `section` and `id` give its position, `docs` is the endpoint of its
/// documentation page, `target` is the value the learner must end up with and
/// `working` the data the learner's expressions act on, which starts from the
/// lesson's seed.
#[derive(Debug)]
pub struct Lesson {
    pub section: usize,
    pub id: usize,
    pub title: String,
    pub help_text: String,
    pub docs: String,
    pub target: Value,
    pub working: Value,
}

/// The character of a decimal digit.
pub open spec fn digit_char(d: nat) -> char {
    if d == 0 { '0' }
    else if d == 1 { '1' }
    else if d == 2 { '2' }
    else if d == 3 { '3' }
    else if d == 4 { '4' }
    else if d == 5 { '5' }
    else if d == 6 { '6' }
    else if d == 7 { '7' }
    else if d == 8 { '8' }
    else { '9' }
}

/// The decimal notation of a natural number, without leading zeros.
pub open spec fn decimal(n: nat) -> Seq<char>
    decreases n,
{
    if n < 10 {
        seq![digit_char(n)]
    } else {
        decimal(n / 10) + seq![digit_char(n % 10)]
    }
}

/// The display form of a lesson's position: `section.id`.
pub open spec fn number_text(section: nat, id: nat) -> Seq<char> {
    decimal(section) + seq!['.'] + decimal(id)
}

/// The heading shown above a lesson: `Tutorial section.id: title`.
pub open spec fn heading_text(section: nat, id: nat, title: Seq<char>) -> Seq<char> {
    "Tutorial "@ + number_text(section, id) + ": "@ + title
}

/// The full address of a documentation endpoint: the endpoint appended, as it
/// stands, to the documentation site's address.
pub open spec fn docs_url_text(docs: Seq<char>) -> Seq<char> {
    "https://vrl.dev/"@ + docs
}

fn digit_str(d: usize) -> (r: &'static str)
    requires
        d < 10,
    ensures
        r@ == seq![digit_char(d as nat)],
{
    proof {
        reveal_strlit("0");
        reveal_strlit("1");
        reveal_strlit("2");
        reveal_strlit("3");
        reveal_strlit("4");
        reveal_strlit("5");
        reveal_strlit("6");
        reveal_strlit("7");
        reveal_strlit("8");
        reveal_strlit("9");
    }
    match d {
        0 => "0",
        1 => "1",
        2 => "2",
        3 => "3",
        4 => "4",
        5 => "5",
        6 => "6",
        7 => "7",
        8 => "8",
        _ => "9",
    }
}

/// Writes a number in decimal notation.
pub fn decimal_string(n: usize) -> (r: String)
    ensures
        r@ == decimal(n as nat),
    decreases n,
{
    if n < 10 {
        digit_str(n).to_owned()
    } else {
        let prefix = decimal_string(n / 10);
        prefix.concat(digit_str(n % 10))
    }
}

impl Lesson {
    /// The lesson's position as `section.id`.
    pub fn number(&self) -> (r: String)
        ensures
            r@ == number_text(self.section as nat, self.id as nat),
    {
        proof {
            reveal_strlit(".");
        }
        let s = decimal_string(self.section);
        let s = s.concat(".");
        s.concat(decimal_string(self.id).as_str())
    }

    /// The heading shown when the lesson is presented.
    pub fn heading(&self) -> (r: String)
        ensures
            r@ == heading_text(self.section as nat, self.id as nat, self.title@),
    {
        proof {
            reveal_strlit("Tutorial ");
            reveal_strlit(": ");
        }
        let s = "Tutorial ".to_owned();
        let s = s.concat(self.number().as_str());
        let s = s.concat(": ");
        s.concat(self.title.as_str())
    }

    /// The full address of the lesson's documentation page.
    pub fn docs_url(&self) -> (r: String)
        ensures
            r@ == docs_url_text(self.docs@),
    {
        proof {
            reveal_strlit("https://vrl.dev/");
        }
        "https://vrl.dev/".to_owned().concat(self.docs.as_str())
    }
}

} // verus!
