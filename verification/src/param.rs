//! Request parameters: what a query string or a request body gives for a name.

use vstd::prelude::*;
use vstd::string::*;

verus! {

/// The value of a request parameter.
#[derive(Debug, PartialEq)]
pub enum ParamValue {
    Boolean(bool),
    Signed(i64),
    Unsigned(u64),
    Text(String),
    /// A null, a fraction, a file, a list or a table.
    Other,
}

/// What a `ParamValue` holds.
pub enum ParamValueView {
    Boolean(bool),
    Signed(i64),
    Unsigned(u64),
    Text(Seq<char>),
    Other,
}

impl View for ParamValue {
    type V = ParamValueView;

    open spec fn view(&self) -> ParamValueView {
        match self {
            ParamValue::Boolean(b) => ParamValueView::Boolean(*b),
            ParamValue::Signed(n) => ParamValueView::Signed(*n),
            ParamValue::Unsigned(n) => ParamValueView::Unsigned(*n),
            ParamValue::Text(s) => ParamValueView::Text(s@),
            ParamValue::Other => ParamValueView::Other,
        }
    }
}

/// A number as a yes or no: zero is no, one is yes, and no other number is either.
pub open spec fn number_flag(n: int) -> Option<bool> {
    if n == 0 {
        Some(false)
    } else if n == 1 {
        Some(true)
    } else {
        None
    }
}

/// A word as a yes or no.
pub open spec fn word_flag(s: Seq<char>) -> Option<bool> {
    if s == "0"@ || s == "f"@ || s == "F"@ || s == "false"@ || s == "FALSE"@ || s == "off"@ || s
        == "OFF"@ {
        Some(false)
    } else if s == "1"@ || s == "t"@ || s == "T"@ || s == "true"@ || s == "TRUE"@ || s == "on"@ || s
        == "ON"@ {
        Some(true)
    } else {
        None
    }
}

/// A parameter's value as a yes or no, where it can be read as one.
pub open spec fn flag(value: ParamValueView) -> Option<bool> {
    match value {
        ParamValueView::Boolean(b) => Some(b),
        ParamValueView::Signed(n) => number_flag(n as int),
        ParamValueView::Unsigned(n) => number_flag(n as int),
        ParamValueView::Text(s) => word_flag(s),
        ParamValueView::Other => None,
    }
}

/// Calls `from_value` of `params::FromValue` for `bool`, which reads booleans, the numbers zero and
/// one, and the usual words for no and yes. Of all other values, the null that stands for them here
/// among them, it reads none.
#[verifier::external_body]
fn read_flag(value: ParamValue) -> (b: Option<bool>)
    ensures
        b == flag(value@),
{
    let value = match value {
        ParamValue::Boolean(b) => params::Value::Boolean(b),
        ParamValue::Signed(n) => params::Value::I64(n),
        ParamValue::Unsigned(n) => params::Value::U64(n),
        ParamValue::Text(s) => params::Value::String(s),
        ParamValue::Other => params::Value::Null,
    };
    params::FromValue::from_value(&value)
}

/// A parameter is given and says yes.
pub open spec fn says_yes(value: Option<ParamValueView>) -> bool {
    match value {
        Some(v) => flag(v) == Some(true),
        None => false,
    }
}

/// Whether a parameter is given and says yes.
pub fn is_yes(value: Option<ParamValue>) -> (yes: bool)
    ensures
        yes == says_yes(opt_view(value)),
{
    match value {
        Some(v) => match read_flag(v) {
            Some(b) => b,
            None => false,
        },
        None => false,
    }
}

/// What an optional parameter holds.
pub open spec fn opt_view(value: Option<ParamValue>) -> Option<ParamValueView> {
    match value {
        Some(v) => Some(v@),
        None => None,
    }
}

/// The number that a parameter asks for: what its text denotes, and zero where it is absent or not
/// text. Nothing where its text denotes no number.
pub open spec fn asked_number(value: Option<ParamValueView>) -> Option<u64> {
    match value {
        Some(ParamValueView::Text(s)) => crate::text::parsed_id(s),
        _ => Some(0),
    }
}

/// Reads the number that a parameter asks for.
pub fn number_or_zero(value: &Option<ParamValue>) -> (n: Option<u64>)
    ensures
        n == asked_number(opt_view(*value)),
{
    match value {
        Some(ParamValue::Text(s)) => crate::text::parse_id(s.as_str()),
        _ => Some(0),
    }
}

/// A parameter says yes if and only if it is given and is true, the number one, or one of the words
/// for yes.
pub proof fn yes_in_words(value: Option<ParamValueView>)
    ensures
        says_yes(value) == (match value {
            Some(ParamValueView::Boolean(b)) => b,
            Some(ParamValueView::Signed(n)) => n == 1,
            Some(ParamValueView::Unsigned(n)) => n == 1,
            Some(ParamValueView::Text(s)) => s == "1"@ || s == "t"@ || s == "T"@ || s == "true"@
                || s == "TRUE"@ || s == "on"@ || s == "ON"@,
            Some(ParamValueView::Other) => false,
            None => false,
        }),
{
    reveal_strlit("0");
    reveal_strlit("f");
    reveal_strlit("F");
    reveal_strlit("false");
    reveal_strlit("FALSE");
    reveal_strlit("off");
    reveal_strlit("OFF");
    reveal_strlit("1");
    reveal_strlit("t");
    reveal_strlit("T");
    reveal_strlit("true");
    reveal_strlit("TRUE");
    reveal_strlit("on");
    reveal_strlit("ON");
    if let Some(ParamValueView::Text(s)) = value {
        assert("1"@[0] != "0"@[0] && "t"@[0] != "f"@[0] && "T"@[0] != "F"@[0]);
        assert("0"@[0] == '0' && "f"@[0] == 'f' && "F"@[0] == 'F');
        assert("1"@[0] == '1' && "t"@[0] == 't' && "T"@[0] == 'T');
        assert("false"@.len() == 5 && "FALSE"@.len() == 5 && "off"@.len() == 3);
        assert("OFF"@.len() == 3 && "true"@.len() == 4 && "TRUE"@.len() == 4);
        assert("on"@.len() == 2 && "ON"@.len() == 2);
    }
}

/// A parameter asks for the number that its text denotes. One that is absent or not text asks for
/// zero.
pub proof fn asked_number_cases(s: Seq<char>, b: bool, n: i64, u: u64)
    ensures
        asked_number(Some(ParamValueView::Text(s))) == crate::text::parsed_id(s),
        asked_number(None) == Some(0u64),
        asked_number(Some(ParamValueView::Boolean(b))) == Some(0u64),
        asked_number(Some(ParamValueView::Signed(n))) == Some(0u64),
        asked_number(Some(ParamValueView::Unsigned(u))) == Some(0u64),
        asked_number(Some(ParamValueView::Other)) == Some(0u64),
{
}

/// A parameter can be read as a no if and only if it is false, the number zero, or one of the words
/// for no.
pub proof fn no_in_words(value: ParamValueView)
    ensures
        flag(value) == Some(false) <==> (match value {
            ParamValueView::Boolean(b) => !b,
            ParamValueView::Signed(n) => n == 0,
            ParamValueView::Unsigned(n) => n == 0,
            ParamValueView::Text(s) => s == "0"@ || s == "f"@ || s == "F"@ || s == "false"@ || s
                == "FALSE"@ || s == "off"@ || s == "OFF"@,
            ParamValueView::Other => false,
        }),
{
}

} // verus!
