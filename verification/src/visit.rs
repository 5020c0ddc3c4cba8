use vstd::prelude::*;

use vstd::string::StringExecFns;

use crate::errors::LayerError;
use crate::fields::Field;
use crate::fields::FieldV;
use crate::fields::render_value;
use crate::fields::value_text;
use crate::text::contains_newline;
use crate::text::str_has_newline;

verus! {

/// Whether the line-oriented sink can accept a field: it emits one line
/// per field, so neither the name nor the rendered value may hold a line
/// break.
pub open spec fn field_ok(f: FieldV) -> bool {
    !contains_newline(f.name) && !contains_newline(value_text(f.value))
}

/// The sink line for one field: `  <name> = <value>`.
pub open spec fn field_line(f: FieldV) -> Seq<char> {
    "  "@ + f.name + " = "@ + value_text(f.value)
}

/// The lines the visitor hands the sink for a field sequence, in
/// declaration order. A field the sink cannot accept is skipped; the
/// failure is confined to that field and the rest proceed.
pub open spec fn field_lines(fs: Seq<FieldV>) -> Seq<Seq<char>>
    decreases fs.len(),
{
    if fs.len() == 0 {
        Seq::empty()
    } else {
        field_lines(fs.drop_last()) + if field_ok(fs.last()) {
            seq![field_line(fs.last())]
        } else {
            Seq::<Seq<char>>::empty()
        }
    }
}

/// Renders one field into its sink line, failing exactly when the sink
/// cannot accept it.
pub fn render_field(f: &Field) -> (r: Result<String, LayerError>)
    ensures
        r is Ok <==> field_ok(f@),
        r matches Ok(line) ==> line@ == field_line(f@),
        r matches Err(e) ==> e == LayerError::FieldSinkFailure,
{
    let value = render_value(&f.value);
    if str_has_newline(f.name.as_str()) || str_has_newline(value.as_str()) {
        Err(LayerError::FieldSinkFailure)
    } else {
        let mut line = String::from_str("  ");
        line.append(f.name.as_str());
        line.append(" = ");
        line.append(value.as_str());
        proof {
            assert(line@ =~= field_line(f@));
        }
        Ok(line)
    }
}

/// Visits the fields one at a time, streaming, in declaration order, and
/// collects the sink's lines. One rejected field never suppresses the
/// others.
pub fn visit_fields(fields: &Vec<Field>) -> (lines: Vec<String>)
    ensures
        lines.deep_view() == field_lines(fields.deep_view()),
{
    let mut lines: Vec<String> = Vec::new();
    let mut i: usize = 0;
    while i < fields.len()
        invariant
            i <= fields@.len(),
            lines.deep_view() == field_lines(fields.deep_view().take(i as int)),
        decreases fields@.len() - i,
    {
        let ghost pre = lines.deep_view();
        match render_field(&fields[i]) {
            Ok(line) => {
                let ghost lv = line@;
                lines.push(line);
                proof {
                    assert(lines.deep_view() =~= pre.push(lv));
                }
            },
            Err(_) => {},
        }
        i += 1;
        proof {
            let fv = fields.deep_view();
            assert(fv.take(i as int).drop_last() =~= fv.take(i as int - 1));
            assert(fv.take(i as int).last() == fv[i as int - 1]);
            assert(lines.deep_view() =~= field_lines(fv.take(i as int)));
        }
    }
    proof {
        assert(fields.deep_view().take(fields@.len() as int) =~= fields.deep_view());
    }
    lines
}

/// Law: when the sink accepts every field, the visitor observes each
/// field exactly once and in declaration order — the line at a position
/// is the line of the field declared at that position.
pub proof fn lemma_visit_order(fs: Seq<FieldV>)
    requires
        forall|i: int| 0 <= i < fs.len() ==> field_ok(fs[i]),
    ensures
        field_lines(fs).len() == fs.len(),
        forall|i: int| 0 <= i < fs.len() ==> field_lines(fs)[i] == field_line(fs[i]),
    decreases fs.len(),
{
    if fs.len() > 0 {
        lemma_visit_order(fs.drop_last());
        assert(field_ok(fs.last()));
        assert forall|i: int| 0 <= i < fs.len() implies field_lines(fs)[i] == field_line(
            fs[i],
        ) by {
            if i < fs.len() - 1 {
                assert(field_lines(fs)[i] == field_lines(fs.drop_last())[i]);
                assert(fs.drop_last()[i] == fs[i]);
            }
        }
    }
}

} // verus!
