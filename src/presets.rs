//! The fixed library of named preset patterns.
use vstd::prelude::*;

verus! {

/// The presets as (name, pattern) pairs, in the order they are offered.
pub open spec fn preset_table() -> Seq<(Seq<char>, Seq<char>)> {
    seq![
        ("Email"@, r"^[\w.-]+@([\w-]+\.)+[\w-]{2,4}$"@),
        ("Phone"@, r"^\+?1?\d{10}$"@),
        ("CURP"@, r"^[A-Z]{1}[AEIOU]{1}[A-Z]{2}[0-9]{2}(0[1-9]|1[0-2])(0[1-9]|[12][0-9]|3[01])[HM]{1}(AS|BC|BS|CC|CL|CM|CS|CH|DF|DG|GT|GR|HG|JC|MC|MN|MS|NT|NL|OC|PL|QT|QR|SP|SL|SR|TC|TS|TL|VZ|YN|ZS|NE)[B-DF-HJ-NP-TV-Z]{3}[0-9A-Z]{1}[0-9]{1}$"@),
        ("Mexican RFC"@, r"^[A-Z&Ñ]{4}\d{6}[A-Z0-9]{3}$"@),
        ("IPv4"@, r"^(?:(?:25[0-5]|2[0-4][0-9]|[01]?[0-9][0-9]?)\.){3}(?:25[0-5]|2[0-4][0-9]|[01]?[0-9][0-9]?)$"@),
        ("Date (DD/MM/YY)"@, r"^(0[1-9]|[12][0-9]|3[01])/(0[1-9]|1[0-2])/\d{2}$"@),
    ]
}

/// The preset names, in order.
pub open spec fn preset_name_seq() -> Seq<Seq<char>> {
    preset_table().map_values(|e: (Seq<char>, Seq<char>)| e.0)
}

/// No two presets share a name.
pub proof fn preset_names_unique()
    ensures
        forall|i: int, j: int|
            0 <= i < j < preset_table().len() ==> #[trigger] preset_table()[i].0
                != #[trigger] preset_table()[j].0,
{
    reveal_strlit("Email");
    reveal_strlit("Phone");
    reveal_strlit("CURP");
    reveal_strlit("Mexican RFC");
    reveal_strlit("IPv4");
    reveal_strlit("Date (DD/MM/YY)");
    assert forall|i: int, j: int| 0 <= i < j < preset_table().len() implies preset_table()[i].0
        != preset_table()[j].0 by {
        assert(preset_table()[i].0[0] != preset_table()[j].0[0]);
    }
}

fn preset_entries() -> (r: Vec<(String, String)>)
    ensures
        r@.map_values(|e: (String, String)| (e.0@, e.1@)) == preset_table(),
{
    let mut r: Vec<(String, String)> = Vec::new();
    r.push((String::from_str("Email"), String::from_str(r"^[\w.-]+@([\w-]+\.)+[\w-]{2,4}$")));
    r.push((String::from_str("Phone"), String::from_str(r"^\+?1?\d{10}$")));
    r.push(
        (
            String::from_str("CURP"),
            String::from_str(
                r"^[A-Z]{1}[AEIOU]{1}[A-Z]{2}[0-9]{2}(0[1-9]|1[0-2])(0[1-9]|[12][0-9]|3[01])[HM]{1}(AS|BC|BS|CC|CL|CM|CS|CH|DF|DG|GT|GR|HG|JC|MC|MN|MS|NT|NL|OC|PL|QT|QR|SP|SL|SR|TC|TS|TL|VZ|YN|ZS|NE)[B-DF-HJ-NP-TV-Z]{3}[0-9A-Z]{1}[0-9]{1}$",
            ),
        ),
    );
    r.push((String::from_str("Mexican RFC"), String::from_str(r"^[A-Z&Ñ]{4}\d{6}[A-Z0-9]{3}$")));
    r.push(
        (
            String::from_str("IPv4"),
            String::from_str(
                r"^(?:(?:25[0-5]|2[0-4][0-9]|[01]?[0-9][0-9]?)\.){3}(?:25[0-5]|2[0-4][0-9]|[01]?[0-9][0-9]?)$",
            ),
        ),
    );
    r.push(
        (
            String::from_str("Date (DD/MM/YY)"),
            String::from_str(r"^(0[1-9]|[12][0-9]|3[01])/(0[1-9]|1[0-2])/\d{2}$"),
        ),
    );
    assert(r@.map_values(|e: (String, String)| (e.0@, e.1@)) =~= preset_table());
    r
}

/// The names of all presets, in order.
pub fn get_preset_names() -> (r: Vec<String>)
    ensures
        r@.map_values(|s: String| s@) == preset_name_seq(),
{
    let entries = preset_entries();
    let mut r: Vec<String> = Vec::new();
    let mut i: usize = 0;
    while i < entries.len()
        invariant
            i <= entries@.len(),
            entries@.map_values(|e: (String, String)| (e.0@, e.1@)) == preset_table(),
            entries@.len() == preset_table().len(),
            r@.map_values(|s: String| s@) =~= preset_name_seq().subrange(0, i as int),
        decreases entries@.len() - i,
    {
        let ghost prev = r@;
        assert(entries@.map_values(|e: (String, String)| (e.0@, e.1@))[i as int] == (
        entries@[i as int].0@, entries@[i as int].1@));
        r.push(entries[i].0.clone());
        assert(r@.map_values(|s: String| s@) =~= prev.map_values(|s: String| s@).push(
            preset_table()[i as int].0,
        ));
        i = i + 1;
    }
    r
}

/// The pattern of the preset called `name`, or `None` where no preset has
/// that name.
pub fn lookup(name: &str) -> (r: Option<String>)
    ensures
        r is Some <==> exists|i: int| 0 <= i < preset_table().len() && #[trigger] preset_table()[i].0 == name@,
        forall|i: int|
            0 <= i < preset_table().len() && #[trigger] preset_table()[i].0 == name@ ==> (r matches Some(p) && p@ == preset_table()[i].1),
{
    let entries = preset_entries();
    let wanted = name.to_owned();
    let mut i: usize = 0;
    while i < entries.len()
        invariant
            i <= entries@.len(),
            wanted@ == name@,
            entries@.map_values(|e: (String, String)| (e.0@, e.1@)) == preset_table(),
            entries@.len() == preset_table().len(),
            forall|j: int| 0 <= j < i ==> #[trigger] preset_table()[j].0 != name@,
        decreases entries@.len() - i,
    {
        assert(entries@.map_values(|e: (String, String)| (e.0@, e.1@))[i as int] == (
        entries@[i as int].0@, entries@[i as int].1@));
        assert(preset_table()[i as int] == (entries@[i as int].0@, entries@[i as int].1@));
        if entries[i].0 == wanted {
            assert(preset_table()[i as int].0 == name@);
            proof {
                preset_names_unique();
            }
            assert forall|j: int|
                0 <= j < preset_table().len() && #[trigger] preset_table()[j].0 == name@ implies j
                == i as int by {
                if j > i as int {
                    assert(preset_table()[i as int].0 != preset_table()[j].0);
                }
            }
            return Some(entries[i].1.clone());
        }
        i = i + 1;
    }
    None
}

} // verus!
