use vstd::prelude::*;

use vstd::string::StringExecFns;

use crate::text::dec_digits;
use crate::text::dec_int;
use crate::text::i64_to_dec;
use crate::text::u64_to_dec;

verus! {

/// A field value as a producer delivers it: a tagged union. A recording
/// for an already-declared name may change variant across calls; the core
/// forwards whatever variant arrives and assumes no type stability.
pub enum FieldValue {
    Signed(i64),
    Unsigned(u64),
    Boolean(bool),
    Text(String),
    /// A floating-point value, carried by the decimal text the producer
    /// rendered it to; the core performs no numeric work on it.
    Float(String),
    /// Any other value, already rendered by the producer's debug
    /// formatting.
    Rendered(String),
}

/// The mathematical shape of a field value.
pub enum FieldValueV {
    Signed(i64),
    Unsigned(u64),
    Boolean(bool),
    Text(Seq<char>),
    Float(Seq<char>),
    Rendered(Seq<char>),
}

impl View for FieldValue {
    type V = FieldValueV;

    open spec fn view(&self) -> FieldValueV {
        match self {
            FieldValue::Signed(i) => FieldValueV::Signed(*i),
            FieldValue::Unsigned(u) => FieldValueV::Unsigned(*u),
            FieldValue::Boolean(b) => FieldValueV::Boolean(*b),
            FieldValue::Text(s) => FieldValueV::Text(s@),
            FieldValue::Float(s) => FieldValueV::Float(s@),
            FieldValue::Rendered(s) => FieldValueV::Rendered(s@),
        }
    }
}

impl DeepView for FieldValue {
    type V = FieldValueV;

    open spec fn deep_view(&self) -> FieldValueV {
        self.view()
    }
}

/// One named field, as passed to the visitor.
pub struct Field {
    pub name: String,
    pub value: FieldValue,
}

/// The mathematical shape of a named field.
pub struct FieldV {
    pub name: Seq<char>,
    pub value: FieldValueV,
}

impl View for Field {
    type V = FieldV;

    open spec fn view(&self) -> FieldV {
        FieldV { name: self.name@, value: self.value@ }
    }
}

impl DeepView for Field {
    type V = FieldV;

    open spec fn deep_view(&self) -> FieldV {
        self.view()
    }
}

/// The text a field value renders to: integers and booleans in their
/// canonical form, text quoted, pre-rendered values verbatim.
pub open spec fn value_text(v: FieldValueV) -> Seq<char> {
    match v {
        FieldValueV::Signed(i) => dec_int(i as int),
        FieldValueV::Unsigned(u) => dec_digits(u as nat),
        FieldValueV::Boolean(b) => if b {
            "true"@
        } else {
            "false"@
        },
        FieldValueV::Text(s) => "\""@ + s + "\""@,
        FieldValueV::Float(s) => s,
        FieldValueV::Rendered(s) => s,
    }
}

/// Renders one field value.
pub fn render_value(v: &FieldValue) -> (r: String)
    ensures
        r@ == value_text(v@),
{
    match v {
        FieldValue::Signed(i) => i64_to_dec(*i),
        FieldValue::Unsigned(u) => u64_to_dec(*u),
        FieldValue::Boolean(b) => {
            if *b {
                String::from_str("true")
            } else {
                String::from_str("false")
            }
        },
        FieldValue::Text(s) => {
            let mut r = String::from_str("\"");
            r.append(s.as_str());
            r.append("\"");
            proof {
                assert(r@ =~= value_text(v@));
            }
            r
        },
        FieldValue::Float(s) => s.clone(),
        FieldValue::Rendered(s) => s.clone(),
    }
}

/// The value a span's field map holds for a name: the last recorded value
/// for that name, or none if the name was never recorded.
pub open spec fn field_value_in(fs: Seq<FieldV>, name: Seq<char>) -> Option<FieldValueV>
    decreases fs.len(),
{
    if fs.len() == 0 {
        None
    } else if fs.last().name == name {
        Some(fs.last().value)
    } else {
        field_value_in(fs.drop_last(), name)
    }
}

/// Looks a name up in a recording log, taking the last recorded value.
pub fn field_value_of<'a>(fs: &'a Vec<Field>, name: &str) -> (r: Option<&'a FieldValue>)
    ensures
        match r {
            Some(v) => field_value_in(fs.deep_view(), name@) == Some(v@),
            None => field_value_in(fs.deep_view(), name@) is None,
        },
{
    proof {
        assert(fs.deep_view().take(fs.len() as int) =~= fs.deep_view());
    }
    let mut i: usize = fs.len();
    while i > 0
        invariant
            0 <= i <= fs.len(),
            field_value_in(fs.deep_view(), name@) == field_value_in(
                fs.deep_view().take(i as int),
                name@,
            ),
        decreases i,
    {
        i -= 1;
        if str_eq(fs[i].name.as_str(), name) {
            proof {
                assert(fs.deep_view().take(i as int + 1).last() == fs.deep_view()[i as int]);
            }
            return Some(&fs[i].value);
        }
        proof {
            assert(fs.deep_view().take(i as int + 1).drop_last() =~= fs.deep_view().take(
                i as int,
            ));
        }
    }
    proof {
        assert(fs.deep_view().take(0) =~= Seq::<FieldV>::empty());
    }
    None
}

/// Law: after an update log is appended to a span's recording log, a
/// name maps to the last value the update recorded for it; a name the
/// update never touched keeps the value it had before.
pub proof fn lemma_last_recorded_wins(fs: Seq<FieldV>, vs: Seq<FieldV>, name: Seq<char>)
    ensures
        field_value_in(fs + vs, name) == if field_value_in(vs, name) is Some {
            field_value_in(vs, name)
        } else {
            field_value_in(fs, name)
        },
    decreases vs.len(),
{
    if vs.len() == 0 {
        assert(fs + vs =~= fs);
    } else {
        assert((fs + vs).last() == vs.last());
        if vs.last().name == name {
        } else {
            assert((fs + vs).drop_last() =~= fs + vs.drop_last());
            lemma_last_recorded_wins(fs, vs.drop_last(), name);
        }
    }
}

/// Relies on str's PartialEq: two string slices compare equal exactly when
/// their character sequences are equal.
#[verifier::external_body]
pub(crate) fn str_eq(a: &str, b: &str) -> (r: bool)
    ensures
        r == (a@ == b@),
{
    a == b
}

} // verus!
