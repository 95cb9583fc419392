//! The credential store: a CSV table with a header that names the columns
//! `name` and `pass`, one known client per row.
use vstd::prelude::*;
use vstd::utf8::{valid_utf8, decode_utf8};

verus! {

/// What csv reads from `data` when no row is taken as a header: each record
/// in order, `None` for a record that csv reports as an error.
pub uninterp spec fn csv_records_of(data: Seq<u8>) -> Seq<Option<Seq<Seq<char>>>>;

/// The text of `bytes`, each invalid UTF-8 sequence replaced by U+FFFD.
pub uninterp spec fn utf8_lossy_of(bytes: Seq<u8>) -> Seq<char>;

/// The fields of a record as text.
pub open spec fn row_view(row: Vec<String>) -> Seq<Seq<char>> {
    row@.map_values(|f: String| f@)
}

/// The records of a table as text.
pub open spec fn table_view(table: Seq<Option<Vec<String>>>) -> Seq<Option<Seq<Seq<char>>>> {
    table.map_values(
        |r: Option<Vec<String>>|
            match r {
                Some(row) => Some(row_view(row)),
                None => None,
            },
    )
}

/// Column `i` is the one column of `header` labelled `label`.
pub open spec fn sole_column(header: Seq<Seq<char>>, label: Seq<char>, i: int) -> bool {
    &&& 0 <= i < header.len()
    &&& header[i] == label
    &&& forall|j: int| 0 <= j < header.len() && header[j] == label ==> j == i
}

/// Record `k` of `table` holds the pair `(name, pass)` in the columns that the
/// header labels `name` and `pass`.
pub open spec fn row_holds(
    table: Seq<Option<Seq<Seq<char>>>>,
    k: int,
    name: Seq<char>,
    pass: Seq<char>,
) -> bool {
    &&& 1 <= k < table.len()
    &&& table[0] is Some
    &&& table[k] is Some
    &&& exists|ni: int, pi: int|
        {
            &&& sole_column(table[0]->0, "name"@, ni)
            &&& sole_column(table[0]->0, "pass"@, pi)
            &&& ni < table[k]->0.len()
            &&& pi < table[k]->0.len()
            &&& table[k]->0[ni] == name
            &&& table[k]->0[pi] == pass
        }
}

/// The pair `(name, pass)` appears as a row of the table. The first record
/// is the header; it must be readable and name each of the columns `name` and
/// `pass` exactly once. Records that could not be read are skipped.
pub open spec fn listed(table: Seq<Option<Seq<Seq<char>>>>, name: Seq<char>, pass: Seq<char>) -> bool {
    exists|k: int| row_holds(table, k, name, pass)
}

/// A known client: a user name and its password.
#[derive(Debug)]
pub struct Client {
    pub name: String,
    pub pass: String,
}

impl View for Client {
    type V = (Seq<char>, Seq<char>);

    open spec fn view(&self) -> (Seq<char>, Seq<char>) {
        (self.name@, self.pass@)
    }
}

impl PartialEq for Client {
    fn eq(&self, other: &Client) -> (r: bool) {
        self.name == other.name && self.pass == other.pass
    }
}

impl vstd::std_specs::cmp::PartialEqSpecImpl for Client {
    open spec fn obeys_eq_spec() -> bool {
        true
    }

    open spec fn eq_spec(&self, other: &Client) -> bool {
        self@ == other@
    }
}

/// Relies on csv::ReaderBuilder with `has_headers(false)` and
/// `Reader::records`: every record of `data` in order, the header row
/// included, with `None` for each record that csv reports as an error.
#[verifier::external_body]
fn read_records(data: &[u8]) -> (r: Vec<Option<Vec<String>>>)
    ensures
        table_view(r@) == csv_records_of(data@),
{
    let mut reader = csv::ReaderBuilder::new().has_headers(false).from_reader(data);
    reader.records().map(|rec| rec.ok().map(|rec| rec.iter().map(|f| f.to_string()).collect())).collect()
}

/// Relies on `String::from_utf8_lossy`: the text of `bytes`, each invalid
/// UTF-8 sequence replaced by U+FFFD; valid UTF-8 is decoded unchanged.
#[verifier::external_body]
pub(crate) fn decode_lossy(bytes: &[u8]) -> (r: String)
    ensures
        r@ == utf8_lossy_of(bytes@),
        valid_utf8(bytes@) ==> r@ == decode_utf8(bytes@),
        bytes@.len() == 0 ==> r@.len() == 0,
{
    String::from_utf8_lossy(bytes).into_owned()
}

/// The one column of `header` labelled `label`, if there is exactly one.
fn sole_column_of(header: &Vec<String>, label: &String) -> (r: Option<usize>)
    ensures
        r matches Some(i) ==> sole_column(row_view(*header), label@, i as int),
        r is None ==> forall|i: int| !sole_column(row_view(*header), label@, i),
{
    let ghost h = row_view(*header);
    let mut found: Option<usize> = None;
    let mut i: usize = 0;
    while i < header.len()
        invariant
            h == row_view(*header),
            i <= header@.len(),
            found matches Some(f) ==> f < i && h[f as int] == label@,
            found is None ==> forall|j: int| 0 <= j < i ==> h[j] != label@,
            found matches Some(f) ==> forall|j: int| 0 <= j < i && h[j] == label@ ==> j == f,
        decreases header@.len() - i,
    {
        if header[i] == *label {
            assert(h[i as int] == label@);
            if found.is_some() {
                assert(!sole_column(h, label@, found.unwrap() as int));
                assert forall|c: int| !sole_column(h, label@, c) by {
                    if sole_column(h, label@, c) {
                        assert(h[i as int] == label@);
                    }
                }
                return None;
            }
            found = Some(i);
        }
        i += 1;
    }
    found
}

/// Whether `client` appears as a row of `table`, whose first record is the
/// header (see `listed`).
pub fn is_listed(table: &Vec<Option<Vec<String>>>, client: &Client) -> (r: bool)
    ensures
        r == listed(table_view(table@), client.name@, client.pass@),
{
    let ghost t = table_view(table@);
    if table.len() == 0 {
        return false;
    }
    let header = match &table[0] {
        Some(h) => h,
        None => {
            return false;
        },
    };
    let name_label = "name".to_owned();
    let pass_label = "pass".to_owned();
    let ni = match sole_column_of(header, &name_label) {
        Some(c) => c,
        None => {
            assert forall|k: int| !row_holds(t, k, client.name@, client.pass@) by {
            }
            return false;
        },
    };
    let pi = match sole_column_of(header, &pass_label) {
        Some(c) => c,
        None => {
            assert forall|k: int| !row_holds(t, k, client.name@, client.pass@) by {
            }
            return false;
        },
    };
    let mut k: usize = 1;
    while k < table.len()
        invariant
            t == table_view(table@),
            1 <= k <= table@.len(),
            table@[0] == Some(*header),
            sole_column(row_view(*header), name_label@, ni as int),
            sole_column(row_view(*header), pass_label@, pi as int),
            name_label@ == "name"@,
            pass_label@ == "pass"@,
            forall|j: int| 1 <= j < k ==> !row_holds(t, j, client.name@, client.pass@),
        decreases table@.len() - k,
    {
        if let Some(row) = &table[k] {
            if ni < row.len() && pi < row.len() {
                let candidate = Client { name: row[ni].clone(), pass: row[pi].clone() };
                if candidate == *client {
                    assert(t[0] == Some(row_view(*header)));
                    assert(t[k as int] == Some(row_view(*row)));
                    assert(row_view(*row)[ni as int] == client.name@);
                    assert(row_view(*row)[pi as int] == client.pass@);
                    assert({
                        &&& sole_column(t[0]->0, "name"@, ni as int)
                        &&& sole_column(t[0]->0, "pass"@, pi as int)
                        &&& ni < t[k as int]->0.len()
                        &&& pi < t[k as int]->0.len()
                        &&& t[k as int]->0[ni as int] == client.name@
                        &&& t[k as int]->0[pi as int] == client.pass@
                    });
                    assert(row_holds(t, k as int, client.name@, client.pass@));
                    return true;
                }
            }
        }
        proof {
            assert(t[0] == Some(row_view(*header)));
            if row_holds(t, k as int, client.name@, client.pass@) {
                let (a, b) = choose|a: int, b: int|
                    {
                        &&& sole_column(t[0]->0, "name"@, a)
                        &&& sole_column(t[0]->0, "pass"@, b)
                        &&& a < t[k as int]->0.len()
                        &&& b < t[k as int]->0.len()
                        &&& t[k as int]->0[a] == client.name@
                        &&& t[k as int]->0[b] == client.pass@
                    };
                assert(a == ni);
                assert(b == pi);
            }
        }
        k += 1;
    }
    false
}

/// Whether the user name and password received in a sub-negotiation appear
/// as a row of the CSV table `data`. Both are read as UTF-8, invalid
/// sequences replaced.
pub fn lookup(data: &Vec<u8>, name: &Vec<u8>, pass: &Vec<u8>) -> (r: bool)
    ensures
        r == listed(csv_records_of(data@), utf8_lossy_of(name@), utf8_lossy_of(pass@)),
{
    let table = read_records(data.as_slice());
    let client = Client { name: decode_lossy(name.as_slice()), pass: decode_lossy(pass.as_slice()) };
    is_listed(&table, &client)
}

} // verus!
