//! The diagnostic dump: a fixed list of named fields, and its one-line text.

use vstd::prelude::*;
use vstd::string::StringExecFns;

use crate::device::DeviceView;
use crate::render::{
    decimal_spec, hundredths_spec, lemma_absent_is_marked, optional_count_spec,
    optional_temperature_spec, optional_text_spec, optional_time_spec, quoted_spec,
};

verus! {

/// One line of a dump: a field's name and its value as text.
#[derive(Debug)]
pub struct Field {
    pub name: &'static str,
    pub value: String,
}

impl View for Field {
    type V = (Seq<char>, Seq<char>);

    open spec fn view(&self) -> (Seq<char>, Seq<char>) {
        (self.name@, self.value@)
    }
}

/// The name and value of each field of a list, in order.
pub open spec fn fields_view(fields: Seq<Field>) -> Seq<(Seq<char>, Seq<char>)> {
    fields.map_values(|field: Field| field@)
}

/// How many fields a dump has.
pub const FIELD_COUNT: usize = 16;

/// The names of a dump's fields, in the order of the dump: identity first,
/// then condition, energy and charge times.
pub open spec fn field_names() -> Seq<Seq<char>> {
    seq![
        "vendor"@,
        "model"@,
        "serial_number"@,
        "technology"@,
        "state"@,
        "capacity"@,
        "temperature"@,
        "percentage"@,
        "cycle_count"@,
        "energy"@,
        "energy_full"@,
        "energy_full_design"@,
        "energy_rate"@,
        "voltage"@,
        "time_to_full"@,
        "time_to_empty"@,
    ]
}

/// The values of a dump's fields for a device, in the order of [`field_names`].
pub open spec fn field_values(device: DeviceView) -> Seq<Seq<char>> {
    let r = device.reading;
    seq![
        optional_text_spec(r.vendor),
        optional_text_spec(r.model),
        optional_text_spec(r.serial_number),
        r.technology.name_spec(),
        r.state.name_spec(),
        hundredths_spec(r.capacity as nat),
        optional_temperature_spec(r.temperature),
        hundredths_spec(r.percentage as nat),
        optional_count_spec(r.cycle_count),
        decimal_spec(r.energy as nat),
        decimal_spec(r.energy_full as nat),
        decimal_spec(r.energy_full_design as nat),
        decimal_spec(r.energy_rate as nat),
        decimal_spec(r.voltage as nat),
        optional_time_spec(r.time_to_full),
        optional_time_spec(r.time_to_empty),
    ]
}

/// The dump of a device: each field's name with its value.
pub open spec fn dump_spec(device: DeviceView) -> Seq<(Seq<char>, Seq<char>)> {
    Seq::new(FIELD_COUNT as nat, |i: int| (field_names()[i], field_values(device)[i]))
}

/// Every dump has the same fields in the same order: which names it lists
/// does not depend on the device.
pub proof fn lemma_dump_names_are_fixed(device: DeviceView)
    ensures
        dump_spec(device).len() == FIELD_COUNT,
        dump_spec(device).map_values(|field: (Seq<char>, Seq<char>)| field.0) == field_names(),
{
    assert(dump_spec(device).map_values(|field: (Seq<char>, Seq<char>)| field.0)
        =~= field_names());
}

/// Two devices with the same reading have the same dump, field for field and
/// as text: a dump taken again from an unchanged device is the same dump.
pub proof fn lemma_dump_follows_reading(first: DeviceView, second: DeviceView)
    requires
        first.reading == second.reading,
    ensures
        dump_spec(first) == dump_spec(second),
        forall|name: Seq<char>|
            struct_text_spec(name, dump_spec(first)) == struct_text_spec(name, dump_spec(second)),
{
    assert(dump_spec(first) =~= dump_spec(second));
}

/// A text that the hardware does not give is shown as `None` under its
/// name, which is not how any text that it gives is shown, an empty one
/// included.
pub proof fn lemma_absent_text_is_marked(device: DeviceView)
    ensures
        device.reading.vendor.is_none() <==> dump_spec(device)[0] == (
            "vendor"@,
            seq!['N', 'o', 'n', 'e'],
        ),
        device.reading.model.is_none() <==> dump_spec(device)[1] == (
            "model"@,
            seq!['N', 'o', 'n', 'e'],
        ),
        device.reading.serial_number.is_none() <==> dump_spec(device)[2] == (
            "serial_number"@,
            seq!['N', 'o', 'n', 'e'],
        ),
{
    let r = device.reading;
    if let Some(t) = r.vendor {
        lemma_absent_is_marked(Some(quoted_spec(t)));
    }
    if let Some(t) = r.model {
        lemma_absent_is_marked(Some(quoted_spec(t)));
    }
    if let Some(t) = r.serial_number {
        lemma_absent_is_marked(Some(quoted_spec(t)));
    }
    lemma_absent_is_marked(None);
}

/// The fields of a list as `name: value`, separated by `, `.
pub open spec fn listed_spec(fields: Seq<(Seq<char>, Seq<char>)>) -> Seq<char>
    decreases fields.len(),
{
    if fields.len() == 0 {
        Seq::empty()
    } else {
        let field = fields.last();
        let entry = field.0 + seq![':', ' '] + field.1;
        if fields.len() == 1 {
            entry
        } else {
            listed_spec(fields.drop_last()) + seq![',', ' '] + entry
        }
    }
}

/// A named list of fields on one line: the name alone where there is no
/// field, else the name and the fields between ` { ` and ` }`.
pub open spec fn struct_text_spec(name: Seq<char>, fields: Seq<(Seq<char>, Seq<char>)>) -> Seq<
    char,
> {
    if fields.len() == 0 {
        name
    } else {
        name + seq![' ', '{', ' '] + listed_spec(fields) + seq![' ', '}']
    }
}

/// Writes a named list of fields on one line, as `name { a: 1, b: 2 }`.
pub fn struct_text(name: &str, fields: &Vec<Field>) -> (text: String)
    ensures
        text@ == struct_text_spec(name@, fields_view(fields@)),
{
    proof {
        reveal_strlit(" { ");
        reveal_strlit(" }");
        assert(" { "@ =~= seq![' ', '{', ' ']);
        assert(" }"@ =~= seq![' ', '}']);
    }
    let mut text = String::from_str(name);
    if fields.len() == 0 {
        return text;
    }
    text.append(" { ");
    let ghost views = fields_view(fields@);
    let mut i: usize = 0;
    while i < fields.len()
        invariant
            i <= fields.len(),
            views == fields_view(fields@),
            text@ == name@ + seq![' ', '{', ' '] + listed_spec(views.take(i as int)),
        decreases fields.len() - i,
    {
        let ghost before = text@;
        if i > 0 {
            text.append(", ");
        }
        text.append(fields[i].name);
        text.append(": ");
        text.append(fields[i].value.as_str());
        proof {
            reveal_strlit(", ");
            reveal_strlit(": ");
            assert(", "@ =~= seq![',', ' ']);
            assert(": "@ =~= seq![':', ' ']);
            let next = views.take(i + 1);
            let entry = fields@[i as int]@.0 + seq![':', ' '] + fields@[i as int]@.1;
            assert(next.drop_last() =~= views.take(i as int));
            assert(next.last() == fields@[i as int]@);
            if i == 0 {
                assert(listed_spec(views.take(0)) =~= Seq::<char>::empty());
                assert(listed_spec(next) == entry);
            } else {
                assert(listed_spec(next) == listed_spec(views.take(i as int)) + seq![',', ' ']
                    + entry);
            }
            assert(text@ =~= name@ + seq![' ', '{', ' '] + listed_spec(next));
        }
        i += 1;
    }
    text.append(" }");
    proof {
        assert(views.take(i as int) =~= views);
        assert(text@ =~= struct_text_spec(name@, views));
    }
    text
}

} // verus!
