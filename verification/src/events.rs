use vstd::prelude::*;
use crate::handler::FlutterHandler;
use crate::ordered_map::OrderedMap;
use crate::text::{joined, nat_text};
use crate::types::{deliveries_view, Delivery, EventToUI, EventView};

verus! {

/// The views of a sequence of strings.
pub open spec fn strings_view(s: Seq<String>) -> Seq<Seq<char>> {
    s.map_values(|x: String| x@)
}

/// The views of a sequence of pairs of string slices.
pub open spec fn pairs_view(s: Seq<(&str, &str)>) -> Seq<(Seq<char>, Seq<char>)> {
    s.map_values(|p: (&str, &str)| (p.0@, p.1@))
}

/// The JSON text of the object that has the members `keys`, each with the string at
/// its position in `values`.
pub uninterp spec fn json_object_text(keys: Seq<Seq<char>>, values: Seq<Seq<char>>) -> Seq<char>;

/// Calls `serde_json::to_string` on a `serde_json::Map` into which each of `keys` was
/// inserted, in order, with the string at its position in `values` as a JSON string.
///
/// Believed, not proved: the text that comes back depends on the keys and the values
/// alone. Such a map has string keys and string values only, so the call does not
/// fail; the empty text stands in for a failure all the same.
#[verifier::external_body]
fn encode_record(keys: &Vec<String>, values: &Vec<String>) -> (text: String)
    requires
        keys@.len() == values@.len(),
        strings_view(keys@).no_duplicates(),
    ensures
        text@ == json_object_text(strings_view(keys@), strings_view(values@)),
{
    let mut object = serde_json::Map::new();
    for (k, v) in keys.iter().zip(values.iter()) {
        object.insert(k.clone(), serde_json::Value::String(v.clone()));
    }
    serde_json::to_string(&object).unwrap_or("".to_owned())
}

/// The member names of the record that `fields` make: each name once, in the order of
/// its first occurrence.
pub open spec fn fields_keys(fields: Seq<(Seq<char>, Seq<char>)>) -> Seq<Seq<char>>
    decreases fields.len(),
{
    if fields.len() == 0 {
        Seq::empty()
    } else {
        let keys = fields_keys(fields.drop_last());
        if keys.contains(fields.last().0) {
            keys
        } else {
            keys.push(fields.last().0)
        }
    }
}

/// The members of the record that `fields` make: of two fields with one name the later
/// one counts.
pub open spec fn fields_map(fields: Seq<(Seq<char>, Seq<char>)>) -> Map<Seq<char>, Seq<char>>
    decreases fields.len(),
{
    if fields.len() == 0 {
        Map::empty()
    } else {
        fields_map(fields.drop_last()).insert(fields.last().0, fields.last().1)
    }
}

/// The fields of an event and, after them, its name as the member `name`.
pub open spec fn event_fields(name: Seq<char>, fields: Seq<(Seq<char>, Seq<char>)>) -> Seq<
    (Seq<char>, Seq<char>),
> {
    fields.push(("name"@, name))
}

/// The text of the event `name` with the fields `fields`: one flat JSON object that
/// holds the fields and the member `name`, which a field of that name does not
/// override.
pub open spec fn event_text(name: Seq<char>, fields: Seq<(Seq<char>, Seq<char>)>) -> Seq<char> {
    let all = event_fields(name, fields);
    let keys = fields_keys(all);
    json_object_text(keys, keys.map_values(|k: Seq<char>| fields_map(all)[k]))
}

/// The record of an event as a map: its fields and its name.
pub fn flat_record(name: &str, event: &Vec<(&str, &str)>) -> (record: OrderedMap<String, String>)
    ensures
        record.wf(),
        record.keys() == fields_keys(event_fields(name@, pairs_view(event@))),
        record@.map_values(|v: String| v@) == fields_map(
            event_fields(name@, pairs_view(event@)),
        ),
{
    let mut record: OrderedMap<String, String> = OrderedMap::new();
    let ghost fields = pairs_view(event@);
    let mut i: usize = 0;
    proof {
        assert(fields.take(0) =~= Seq::empty());
    }
    while i < event.len()
        invariant
            i <= event.len(),
            fields == pairs_view(event@),
            record.wf(),
            record.keys() == fields_keys(fields.take(i as int)),
            record@.map_values(|v: String| v@) == fields_map(fields.take(i as int)),
        decreases event.len() - i,
    {
        proof {
            assert(fields.take(i + 1).drop_last() =~= fields.take(i as int));
            assert(fields.take(i + 1).last() == fields[i as int]);
            record.lemma_dom();
        }
        let ghost before = record@;
        let pair = event[i];
        let key = pair.0.to_owned();
        let value = pair.1.to_owned();
        record.insert(key, value);
        proof {
            assert(record@.map_values(|v: String| v@) =~= before.map_values(
                |v: String| v@,
            ).insert(key@, value@));
        }
        i += 1;
    }
    proof {
        crate::seq_util::lemma_take_all(fields);
        let all = event_fields(name@, fields);
        assert(all.drop_last() =~= fields);
        assert(all.last() == ("name"@, name@));
    }
    proof {
        record.lemma_dom();
    }
    let ghost before = record@;
    let key = "name".to_owned();
    let value = name.to_owned();
    record.insert(key, value);
    proof {
        assert(record@.map_values(|v: String| v@) =~= before.map_values(|v: String| v@).insert(
            key@,
            value@,
        ));
    }
    record
}

/// The text of the event `name` with the fields `event`.
pub fn make_event(name: &str, event: &Vec<(&str, &str)>) -> (text: String)
    ensures
        text@ == event_text(name@, pairs_view(event@)),
{
    let record = flat_record(name, event);
    let keys = record.keys_vec();
    let values = record.values_vec();
    proof {
        record.lemma_keys();
        record.lemma_values_view();
        record.lemma_dom();
        assert(strings_view(values@) =~= record.keys().map_values(
            |k: Seq<char>| fields_map(event_fields(name@, pairs_view(event@)))[k],
        )) by {
            assert forall|i: int| 0 <= i < record.keys().len() implies strings_view(values@)[i]
                == fields_map(event_fields(name@, pairs_view(event@)))[record.keys()[i]] by {
                assert(record.keys().contains(record.keys()[i]));
            }
        }
    }
    encode_record(keys, values)
}

impl FlutterHandler {
    /// Pushes the event `name` with the fields `event` to every attachment that has a
    /// sink: the deliveries, in the attachments' order, for the caller to send.
    pub fn push_event(&self, name: &str, event: Vec<(&str, &str)>) -> (out: Vec<Delivery>)
        requires
            self.wf(),
        ensures
            deliveries_view(out@) == self@.notices(
                EventView::Event(event_text(name@, pairs_view(event@))),
            ),
    {
        let text = make_event(name, &event);
        self.fan_out(&EventToUI::Event(text))
    }
}

/// The views of the rows of a table of strings.
pub open spec fn string_rows_view(s: Seq<Vec<String>>) -> Seq<Seq<Seq<char>>> {
    s.map_values(|row: Vec<String>| strings_view(row@))
}

/// The views of the rows of a table of integers.
pub open spec fn int_rows_view(s: Seq<Vec<i32>>) -> Seq<Seq<i32>> {
    s.map_values(|row: Vec<i32>| row@)
}

/// The JSON text of the object that has the members `keys`, each with the integer at
/// its position in `values`.
pub uninterp spec fn json_int_object_text(keys: Seq<Seq<char>>, values: Seq<i32>) -> Seq<char>;

/// The JSON text of the array of the objects of which the one at position `i` has the
/// members `keys[i]`, each with the integer at its position in `values[i]`.
pub uninterp spec fn json_int_objects_text(keys: Seq<Seq<Seq<char>>>, values: Seq<Seq<i32>>) -> Seq<
    char,
>;

/// The JSON text of the array of the numbers `bytes`: their decimal texts, with commas
/// between them, in square brackets.
pub open spec fn json_bytes_text(bytes: Seq<u8>) -> Seq<char> {
    seq!['['] + joined(bytes.map_values(|b: u8| nat_text(b as nat)), seq![',']) + seq![']']
}

/// Calls `serde_json::to_string` on a `serde_json::Map` into which each of `keys` was
/// inserted, in order, with the integer at its position in `values` as a JSON number.
///
/// Believed, not proved: the text that comes back depends on the keys and the values
/// alone. The empty text stands in for a failure of the call.
#[verifier::external_body]
pub(crate) fn encode_int_record(keys: &Vec<String>, values: &Vec<i32>) -> (text: String)
    requires
        keys@.len() == values@.len(),
        strings_view(keys@).no_duplicates(),
    ensures
        text@ == json_int_object_text(strings_view(keys@), values@),
{
    let mut object = serde_json::Map::new();
    for (k, v) in keys.iter().zip(values.iter()) {
        object.insert(k.clone(), serde_json::Value::from(*v));
    }
    serde_json::to_string(&object).unwrap_or("".to_owned())
}

/// Calls `serde_json::to_string` on a vector of `serde_json::Value` objects, one for
/// each row: into the object of a row each of the row's keys was inserted, in order,
/// with the integer at its position in the row of `values` as a JSON number.
///
/// Believed, not proved: the text that comes back depends on the keys and the values
/// alone. The empty text stands in for a failure of the call.
#[verifier::external_body]
pub(crate) fn encode_int_records(keys: &Vec<Vec<String>>, values: &Vec<Vec<i32>>) -> (text: String)
    requires
        keys@.len() == values@.len(),
        forall|i: int| 0 <= i < keys@.len() ==> (#[trigger] keys@[i])@.len() == values@[i]@.len(),
        forall|i: int| 0 <= i < keys@.len() ==> strings_view((#[trigger] keys@[i])@).no_duplicates(),
    ensures
        text@ == json_int_objects_text(string_rows_view(keys@), int_rows_view(values@)),
{
    let mut array = Vec::new();
    for (ks, vs) in keys.iter().zip(values.iter()) {
        let mut object = serde_json::Map::new();
        for (k, v) in ks.iter().zip(vs.iter()) {
            object.insert(k.clone(), serde_json::Value::from(*v));
        }
        array.push(serde_json::Value::Object(object));
    }
    serde_json::to_string(&array).unwrap_or("".to_owned())
}

/// Calls `serde_json::to_string` on `bytes`.
///
/// Believed, not proved: the text that comes back is an opening bracket, the numbers
/// in decimal with a comma between each two, and a closing bracket, as the compact
/// formatter of `serde_json` writes a sequence of unsigned numbers. Writing into a
/// string does not fail; the empty text stands in for a failure all the same.
#[verifier::external_body]
pub(crate) fn encode_bytes(bytes: &Vec<u8>) -> (text: String)
    ensures
        text@ == json_bytes_text(bytes@),
{
    serde_json::to_string(bytes).unwrap_or("".to_owned())
}

} // verus!
