use vstd::prelude::*;
use crate::text::{decimal, position_of, push_decimal};

verus! {

/// One row of the samurai table.
pub struct SamuraiEntry {
    pub name: String,
    pub description: String,
}

/// Why a samurai table could not be read.
pub enum TableError {
    /// The header has no column of this name.
    MissingColumn(String),
}

/// Relies on `rand::random_range`: a value drawn from `0..n`, which must not
/// be empty.
#[verifier::external_body]
fn random_below(n: u32) -> (r: u32)
    requires
        n > 0,
    ensures
        r < n,
{
    rand::random_range(0..n)
}

/// A random samurai id below the number of rows.
pub fn get_random_samurai_id(idlength: u32) -> (r: u32)
    requires
        idlength > 0,
    ensures
        r < idlength,
{
    random_below(idlength)
}

/// The field at `index` of a row, or the empty text where the row is shorter.
pub open spec fn field_or_empty(row: Seq<String>, index: int) -> Seq<char> {
    if 0 <= index < row.len() {
        row[index]@
    } else {
        Seq::empty()
    }
}

fn field_of(row: &Vec<String>, index: usize) -> (r: String)
    ensures
        r@ == field_or_empty(row@, index as int),
{
    if index < row.len() {
        row[index].clone()
    } else {
        String::new()
    }
}

/// Builds the samurai entries of a table from its header and its rows: the
/// name and the description come from the first columns headed `Name` and
/// `Description`.
pub fn samurai_entries(headers: &Vec<String>, rows: &Vec<Vec<String>>) -> (r: Result<Vec<SamuraiEntry>, TableError>)
    ensures
        match r {
            Ok(entries) => exists|ni: int, di: int|
                0 <= ni < headers@.len() && headers@[ni]@ == "Name"@
                && 0 <= di < headers@.len() && headers@[di]@ == "Description"@
                && entries@.len() == rows@.len()
                && forall|k: int| 0 <= k < rows@.len() ==>
                    entries@[k].name@ == field_or_empty(rows@[k]@, ni)
                    && entries@[k].description@ == field_or_empty(rows@[k]@, di),
            Err(TableError::MissingColumn(c)) =>
                (c@ == "Name"@ && forall|j: int| 0 <= j < headers@.len() ==> headers@[j]@ != "Name"@)
                || (c@ == "Description"@
                    && (exists|j: int| 0 <= j < headers@.len() && headers@[j]@ == "Name"@)
                    && forall|j: int| 0 <= j < headers@.len() ==> headers@[j]@ != "Description"@),
        },
{
    let name_index = match position_of(headers, "Name") {
        Some(i) => i,
        None => {
            return Err(TableError::MissingColumn("Name".to_owned()));
        },
    };
    let description_index = match position_of(headers, "Description") {
        Some(i) => i,
        None => {
            return Err(TableError::MissingColumn("Description".to_owned()));
        },
    };
    let mut entries: Vec<SamuraiEntry> = Vec::new();
    let mut k: usize = 0;
    while k < rows.len()
        invariant
            k <= rows@.len(),
            entries@.len() == k,
            forall|m: int| 0 <= m < k ==>
                entries@[m].name@ == field_or_empty(rows@[m]@, name_index as int)
                && entries@[m].description@ == field_or_empty(rows@[m]@, description_index as int),
        decreases rows@.len() - k,
    {
        let row = &rows[k];
        let name = field_of(row, name_index);
        let description = field_of(row, description_index);
        entries.push(SamuraiEntry { name, description });
        k = k + 1;
    }
    Ok(entries)
}

/// The reply text for one entry: its id, its name, then its description on
/// a line of its own.
pub open spec fn samurai_text(id: nat, entry: SamuraiEntry) -> Seq<char> {
    decimal(id) + ": "@ + entry.name@ + "\n"@ + entry.description@
}

/// The reply text for the entry at `id`.
pub fn samurai_line(entries: &[SamuraiEntry], id: u32) -> (r: String)
    requires
        id < entries@.len(),
    ensures
        r@ == samurai_text(id as nat, entries@[id as int]),
{
    let entry = &entries[id as usize];
    let mut r = String::new();
    push_decimal(&mut r, id);
    r.append(": ");
    r.append(entry.name.as_str());
    r.append("\n");
    r.append(entry.description.as_str());
    r
}

/// The reply text for a randomly chosen entry, or `None` for an empty table.
pub fn get_samurai_name(samurai_entries: &[SamuraiEntry]) -> (r: Option<String>)
    requires
        samurai_entries@.len() <= u32::MAX,
    ensures
        samurai_entries@.len() == 0 ==> r is None,
        samurai_entries@.len() > 0 ==> exists|id: int| 0 <= id < samurai_entries@.len()
            && (r matches Some(t) && t@ == samurai_text(id as nat, #[trigger] samurai_entries@[id])),
{
    if samurai_entries.len() == 0 {
        return None;
    }
    let id = get_random_samurai_id(samurai_entries.len() as u32);
    Some(samurai_line(samurai_entries, id))
}

} // verus!
