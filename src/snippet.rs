use vstd::prelude::*;
use vstd::string::StrSliceExecFns;
use vstd::string::StringExecFns;

verus! {

/// The mathematical content of a snippet: its three fields as plain values.
pub struct SnippetModel {
    pub priority: int,
    pub cmd: Seq<char>,
    pub description: Seq<char>,
}

/// One stored command: a priority used as a sort hint, the command text and
/// a free-text description. Both strings may be empty.
#[derive(Clone, Debug)]
pub struct Snippet {
    pub priority: i64,
    pub cmd: String,
    pub description: String,
}

impl View for Snippet {
    type V = SnippetModel;

    open spec fn view(&self) -> SnippetModel {
        SnippetModel { priority: self.priority as int, cmd: self.cmd@, description: self.description@ }
    }
}

/// The models of a sequence of snippets, in order.
pub open spec fn models(s: Seq<Snippet>) -> Seq<SnippetModel> {
    s.map_values(|x: Snippet| x@)
}

/// The character for a decimal digit.
pub open spec fn digit_char(d: nat) -> char {
    if d == 0 { '0' }
    else if d == 1 { '1' }
    else if d == 2 { '2' }
    else if d == 3 { '3' }
    else if d == 4 { '4' }
    else if d == 5 { '5' }
    else if d == 6 { '6' }
    else if d == 7 { '7' }
    else if d == 8 { '8' }
    else { '9' }
}

/// The decimal digits of a natural number, most significant first, with no
/// leading zero.
pub open spec fn digits(n: nat) -> Seq<char>
    decreases n,
{
    if n < 10 {
        seq![digit_char(n)]
    } else {
        digits(n / 10).push(digit_char(n % 10))
    }
}

/// The decimal text of an integer, with a leading `-` when it is negative.
pub open spec fn decimal(i: int) -> Seq<char> {
    if i < 0 {
        seq!['-'] + digits((-i) as nat)
    } else {
        digits(i as nat)
    }
}

/// A text field as it is shown: an empty one stands as a single newline.
pub open spec fn shown_text(s: Seq<char>) -> Seq<char> {
    if s.len() == 0 { "\n"@ } else { s }
}

/// The three-line text of a snippet, used to show it and to seed an editor.
pub open spec fn rendered(m: SnippetModel) -> Seq<char> {
    "priority = "@ + decimal(m.priority) + "\ncmd = '''"@ + shown_text(m.cmd) + "'''\ndescription = '''"@
        + shown_text(m.description) + "'''"@
}

/// The text of one decimal digit.
fn digit_str(d: u64) -> (r: &'static str)
    requires
        d < 10,
    ensures
        r@ == seq![digit_char(d as nat)],
{
    proof {
        reveal_strlit("0");
        reveal_strlit("1");
        reveal_strlit("2");
        reveal_strlit("3");
        reveal_strlit("4");
        reveal_strlit("5");
        reveal_strlit("6");
        reveal_strlit("7");
        reveal_strlit("8");
        reveal_strlit("9");
    }
    if d == 0 { "0" }
    else if d == 1 { "1" }
    else if d == 2 { "2" }
    else if d == 3 { "3" }
    else if d == 4 { "4" }
    else if d == 5 { "5" }
    else if d == 6 { "6" }
    else if d == 7 { "7" }
    else if d == 8 { "8" }
    else { "9" }
}

/// The decimal text of a natural number.
fn digits_text(n: u64) -> (r: String)
    ensures
        r@ == digits(n as nat),
    decreases n,
{
    if n < 10 {
        String::from_str(digit_str(n))
    } else {
        let mut r = digits_text(n / 10);
        r.append(digit_str(n % 10));
        r
    }
}

/// The decimal text of an integer.
pub fn decimal_text(i: i64) -> (r: String)
    ensures
        r@ == decimal(i as int),
{
    if i < 0 {
        let mag: u64 = (0i128 - i as i128) as u64;
        let mut r = String::from_str("-");
        proof {
            reveal_strlit("-");
        }
        r.append(digits_text(mag).as_str());
        r
    } else {
        digits_text(i as u64)
    }
}

impl Snippet {
    /// A snippet with the given fields.
    pub fn new(priority: i64, cmd: String, description: String) -> (r: Snippet)
        ensures
            r.priority == priority,
            r.cmd@ == cmd@,
            r.description@ == description@,
    {
        Snippet { priority, cmd, description }
    }

    /// The three-line text of this snippet:
    /// `priority = <n>`, `cmd = '''<cmd>'''`, `description = '''<description>'''`,
    /// where an empty text stands as a single newline.
    pub fn render(&self) -> (r: String)
        ensures
            r@ == rendered(self@),
    {
        let mut r = String::from_str("priority = ");
        let num = decimal_text(self.priority);
        r.append(num.as_str());
        r.append("\ncmd = '''");
        if self.cmd.as_str().unicode_len() == 0 {
            r.append("\n");
        } else {
            r.append(self.cmd.as_str());
        }
        r.append("'''\ndescription = '''");
        if self.description.as_str().unicode_len() == 0 {
            r.append("\n");
        } else {
            r.append(self.description.as_str());
        }
        r.append("'''");
        r
    }

    /// A copy of this snippet with the same fields.
    pub fn duplicate(&self) -> (r: Snippet)
        ensures
            r@ == self@,
    {
        Snippet { priority: self.priority, cmd: self.cmd.clone(), description: self.description.clone() }
    }
}

impl Default for Snippet {
    /// Priority 0 and two empty texts.
    fn default() -> (r: Snippet)
        ensures
            r.priority == 0,
            r.cmd@.len() == 0,
            r.description@.len() == 0,
    {
        Snippet { priority: 0, cmd: String::new(), description: String::new() }
    }
}

impl PartialEq for Snippet {
    fn eq(&self, o: &Snippet) -> (r: bool) {
        self.priority == o.priority && self.cmd == o.cmd && self.description == o.description
    }
}

impl vstd::std_specs::cmp::PartialEqSpecImpl for Snippet {
    open spec fn obeys_eq_spec() -> bool {
        true
    }

    open spec fn eq_spec(&self, o: &Snippet) -> bool {
        self@ == o@
    }
}

impl Eq for Snippet {}

} // verus!
