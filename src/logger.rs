use vstd::prelude::*;
use vstd::string::*;

verus! {

/// The logical connective that joins the two operands of a logged line.
#[derive(Clone, Copy, Debug, PartialEq, Eq, Structural)]
pub enum Connective {
    And,
    Or,
}

/// The quoted, escaped text that `Debug` gives a string with characters `s`.
pub uninterp spec fn debug_quoted(s: Seq<char>) -> Seq<char>;

/// Relies on `<str as Debug>::fmt`: the quoted, escaped form of a string,
/// which depends on its characters alone.
#[verifier::external_body]
fn quoted(s: &str) -> (r: String)
    ensures
        r@ == debug_quoted(s@),
{
    format!("{:?}", s)
}

/// The text that `Debug` gives a boolean.
pub open spec fn bool_text(b: bool) -> Seq<char> {
    if b {
        "true"@
    } else {
        "false"@
    }
}

impl Connective {
    /// The value of `left <op> right`.
    pub open spec fn spec_apply(self, left: bool, right: bool) -> bool {
        match self {
            Connective::And => left && right,
            Connective::Or => left || right,
        }
    }

    /// The word that names the connective in a logged line.
    pub open spec fn spec_word(self) -> Seq<char> {
        match self {
            Connective::And => "and"@,
            Connective::Or => "or"@,
        }
    }

    /// Combines `left` and `right` with this connective.
    pub fn apply(&self, left: bool, right: bool) -> (r: bool)
        ensures
            r == self.spec_apply(left, right),
    {
        match self {
            Connective::And => left && right,
            Connective::Or => left || right,
        }
    }

    /// The word that names this connective.
    pub fn word(&self) -> (r: &'static str)
        ensures
            r@ == self.spec_word(),
    {
        match self {
            Connective::And => "and",
            Connective::Or => "or",
        }
    }
}

/// The line `<left> <word> <right> is <value>`.
pub open spec fn line_text(op: Connective, left: Seq<char>, right: Seq<char>, value: bool) -> Seq<
    char,
> {
    left + " "@ + op.spec_word() + " "@ + right + " is "@ + bool_text(value)
}

/// The text that `Debug` gives `b`.
pub fn bool_str(b: bool) -> (r: &'static str)
    ensures
        r@ == bool_text(b),
{
    if b {
        "true"
    } else {
        "false"
    }
}

/// The line for operands whose quoted source texts are `left_quoted` and
/// `right_quoted` and whose values are `left` and `right`: it ends with the
/// value of the two combined by `op`.
pub fn render_line(
    op: Connective,
    left_quoted: &str,
    right_quoted: &str,
    left: bool,
    right: bool,
) -> (r: String)
    ensures
        r@ == line_text(op, left_quoted@, right_quoted@, op.spec_apply(left, right)),
{
    let value = op.apply(left, right);
    let mut r = String::from_str(left_quoted);
    r.append(" ");
    r.append(op.word());
    r.append(" ");
    r.append(right_quoted);
    r.append(" is ");
    r.append(bool_str(value));
    r
}

/// The line that logs `left_src <op> right_src` for operands whose source
/// texts are `left_src` and `right_src` and whose values are `left` and
/// `right`: both texts quoted as `Debug` quotes them, the connective's word,
/// and the combined value.
pub fn log_line(op: Connective, left_src: &str, right_src: &str, left: bool, right: bool) -> (r:
    String)
    ensures
        r@ == line_text(
            op,
            debug_quoted(left_src@),
            debug_quoted(right_src@),
            op.spec_apply(left, right),
        ),
{
    let lq = quoted(left_src);
    let rq = quoted(right_src);
    render_line(op, lq.as_str(), rq.as_str(), left, right)
}

} // verus!
