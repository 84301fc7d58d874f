//! The layout of the spreadsheet report of test runs: its cells, row by row,
//! with the formulas that grade each board.

use vstd::prelude::*;
use vstd::string::StringExecFns;
use crate::numeric::{decimal_chars, push_decimal};

verus! {

/// Columns every report starts with.
pub open spec fn static_headers() -> Seq<Seq<char>> {
    seq!["chip_number"@, "software"@, "chip_type"@, "flashed_id"@, "flashed_time"@]
}

/// Columns computed by formulas, after the data columns.
pub open spec fn calc_headers() -> Seq<Seq<char>> {
    seq!["db_vs_best"@, "PASS"@]
}

pub open spec fn strings_view(v: Seq<String>) -> Seq<Seq<char>> {
    v.map_values(|s: String| s@)
}

pub open spec fn record_view(r: Vec<(String, String)>) -> Seq<(Seq<char>, Seq<char>)> {
    r@.map_values(|e: (String, String)| (e.0@, e.1@))
}

pub open spec fn records_view(rs: Seq<Vec<(String, String)>>) -> Seq<Seq<(Seq<char>, Seq<char>)>> {
    rs.map_values(|r: Vec<(String, String)>| record_view(r))
}

pub open spec fn rows_view(rows: Seq<Vec<String>>) -> Seq<Seq<Seq<char>>> {
    rows.map_values(|r: Vec<String>| strings_view(r@))
}

/// The first position of `x` in `s` at or after `i`.
pub open spec fn first_index_from(s: Seq<Seq<char>>, x: Seq<char>, i: int) -> Option<nat>
    decreases s.len() - i,
{
    if i < 0 || i >= s.len() {
        None
    } else if s[i] == x {
        Some(i as nat)
    } else {
        first_index_from(s, x, i + 1)
    }
}

/// The value of the first entry with the given name, at or after entry `i`.
pub open spec fn lookup_from(r: Seq<(Seq<char>, Seq<char>)>, key: Seq<char>, i: int) -> Option<
    Seq<char>,
>
    decreases r.len() - i,
{
    if i < 0 || i >= r.len() {
        None
    } else if r[i].0 == key {
        Some(r[i].1)
    } else {
        lookup_from(r, key, i + 1)
    }
}

/// The spreadsheet letter of a column, taken as a byte from `A` on.
pub open spec fn column_char(p: nat) -> char {
    (((p % 256) + 65) % 256) as u8 as char
}

/// The address of a cell: column letter and row number.
pub open spec fn cell_address(col: nat, row: nat) -> Seq<char> {
    seq![column_char(col)] + decimal_chars(row)
}

/// How far below the best average a board's signal lies, in tens of dB.
pub open spec fn rounddown_formula(rssi_col: nat, row: nat, n: nat) -> Seq<char> {
    "=ROUNDDOWN("@ + cell_address(rssi_col, row) + "-"@ + "$B$"@ + decimal_chars(n + 5)
        + ", -1)"@
}

/// Whether a board passes: its distance from the best is at least -10.
pub open spec fn pass_formula(db_col: nat, row: nat) -> Seq<char> {
    "=IF(AND(C"@ + decimal_chars(row) + "<>\"\","@ + ","@ + cell_address(db_col, row)
        + ">=-10"@ + ","@ + "), \"PASS\", \"NO PASS\")"@
}

/// The average of the signals within 5 dB of the best one.
pub open spec fn top_average_formula(rssi_col: nat, n: nat) -> Seq<char> {
    let start = cell_address(rssi_col, 2);
    let end = cell_address(rssi_col, n + 1);
    "=AVERAGEIF("@ + start + ":"@ + end + ",CONCAT(\">\",MAX("@ + start + ":"@ + end + ")-5))"@
}

/// The cells of one record's row: its value under each data column (empty
/// where it has none), then, when there is an `rssi` column, its grading.
pub open spec fn record_row(
    data_headers: Seq<Seq<char>>,
    record: Seq<(Seq<char>, Seq<char>)>,
    row: nat,
    n: nat,
    rssi_col: Option<nat>,
    db_col: nat,
) -> Seq<Seq<char>> {
    let values = Seq::new(
        data_headers.len(),
        |j: int|
            match lookup_from(record, data_headers[j], 0) {
                Some(v) => v,
                None => Seq::<char>::empty(),
            },
    );
    match rssi_col {
        Some(c) => values + seq![rounddown_formula(c, row, n), pass_formula(db_col, row)],
        None => values,
    }
}

/// The whole report, row by row (an empty row is a blank one): the header,
/// one row per record, three blank rows, and, when there is an `rssi` column,
/// the average of the best signals.
pub open spec fn report_rows(
    headers: Seq<Seq<char>>,
    records: Seq<Seq<(Seq<char>, Seq<char>)>>,
) -> Seq<Seq<Seq<char>>> {
    let data_headers = static_headers() + headers;
    let all_headers = data_headers + calc_headers();
    let n = records.len();
    let rssi_col = first_index_from(data_headers, "rssi"@, 0);
    let db_col = match first_index_from(all_headers, "db_vs_best"@, 0) {
        Some(d) => d,
        None => 0,
    };
    let body = Seq::new(n, |i: int| record_row(data_headers, records[i], (i + 2) as nat, n, rssi_col, db_col));
    let blank = Seq::<Seq<char>>::empty();
    let tail = match rssi_col {
        Some(c) => seq![seq!["Top 5dB average:"@, top_average_formula(c, n)]],
        None => Seq::empty(),
    };
    seq![all_headers] + body + seq![blank, blank, blank] + tail
}

/// Relies on `String::from(char)`: the string of that one character.
#[verifier::external_body]
fn char_string(c: char) -> (r: String)
    ensures
        r@ == seq![c],
{
    String::from(c)
}

fn cell_address_string(col: usize, row: u128) -> (r: String)
    ensures
        r@ == cell_address(col as nat, row as nat),
{
    let b: u8 = ((col % 256 + 65) % 256) as u8;
    let mut s = char_string(b as char);
    push_decimal(&mut s, row);
    s
}

/// The first position of `key` in `list`.
pub fn position_of(list: &Vec<String>, key: &str) -> (r: Option<usize>)
    ensures
        match r {
            Some(i) => first_index_from(strings_view(list@), key@, 0) == Some(i as nat),
            None => first_index_from(strings_view(list@), key@, 0) is None,
        },
{
    let ghost s = strings_view(list@);
    let target = String::from_str(key);
    let mut i: usize = 0;
    while i < list.len()
        invariant
            0 <= i <= list@.len(),
            s == strings_view(list@),
            target@ == key@,
            first_index_from(s, key@, i as int) == first_index_from(s, key@, 0),
        decreases list@.len() - i,
    {
        if list[i] == target {
            return Some(i);
        }
        i = i + 1;
    }
    None
}

/// The value of the first entry named `key`.
pub fn lookup(record: &Vec<(String, String)>, key: &String) -> (r: Option<String>)
    ensures
        match r {
            Some(v) => lookup_from(record_view(*record), key@, 0) == Some(v@),
            None => lookup_from(record_view(*record), key@, 0) is None,
        },
{
    let ghost s = record_view(*record);
    let mut i: usize = 0;
    while i < record.len()
        invariant
            0 <= i <= record@.len(),
            s == record_view(*record),
            lookup_from(s, key@, i as int) == lookup_from(s, key@, 0),
        decreases record@.len() - i,
    {
        if record[i].0 == *key {
            return Some(record[i].1.clone());
        }
        i = i + 1;
    }
    None
}


fn rounddown_string(rssi_col: usize, row: u128, n: u128) -> (r: String)
    requires
        n + 5 <= u128::MAX,
    ensures
        r@ == rounddown_formula(rssi_col as nat, row as nat, n as nat),
{
    let mut s = String::from_str("=ROUNDDOWN(");
    s.append(cell_address_string(rssi_col, row).as_str());
    s.append("-");
    s.append("$B$");
    push_decimal(&mut s, n + 5);
    s.append(", -1)");
    assert(s@ =~= rounddown_formula(rssi_col as nat, row as nat, n as nat));
    s
}

fn pass_string(db_col: usize, row: u128) -> (r: String)
    ensures
        r@ == pass_formula(db_col as nat, row as nat),
{
    let mut s = String::from_str("=IF(AND(C");
    push_decimal(&mut s, row);
    s.append("<>\"\",");
    s.append(",");
    s.append(cell_address_string(db_col, row).as_str());
    s.append(">=-10");
    s.append(",");
    s.append("), \"PASS\", \"NO PASS\")");
    assert(s@ =~= pass_formula(db_col as nat, row as nat));
    s
}

fn top_average_string(rssi_col: usize, n: u128) -> (r: String)
    requires
        n + 1 <= u128::MAX,
    ensures
        r@ == top_average_formula(rssi_col as nat, n as nat),
{
    let start = cell_address_string(rssi_col, 2);
    let end = cell_address_string(rssi_col, n + 1);
    let mut s = String::from_str("=AVERAGEIF(");
    s.append(start.as_str());
    s.append(":");
    s.append(end.as_str());
    s.append(",CONCAT(\">\",MAX(");
    s.append(start.as_str());
    s.append(":");
    s.append(end.as_str());
    s.append(")-5))");
    assert(s@ =~= top_average_formula(rssi_col as nat, n as nat));
    s
}

fn record_row_cells(
    data_headers: &Vec<String>,
    record: &Vec<(String, String)>,
    row: u128,
    n: u128,
    rssi_col: Option<usize>,
    db_col: usize,
) -> (r: Vec<String>)
    requires
        n + 5 <= u128::MAX,
    ensures
        strings_view(r@) == record_row(
            strings_view(data_headers@),
            record_view(*record),
            row as nat,
            n as nat,
            match rssi_col {
                Some(c) => Some(c as nat),
                None => None,
            },
            db_col as nat,
        ),
{
    let ghost dh = strings_view(data_headers@);
    let ghost rec = record_view(*record);
    let ghost values = Seq::new(
        dh.len(),
        |j: int|
            match lookup_from(rec, dh[j], 0) {
                Some(v) => v,
                None => Seq::<char>::empty(),
            },
    );
    let mut cells: Vec<String> = Vec::new();
    let mut j: usize = 0;
    while j < data_headers.len()
        invariant
            0 <= j <= data_headers@.len(),
            dh == strings_view(data_headers@),
            rec == record_view(*record),
            values.len() == dh.len(),
            forall|k: int| 0 <= k < dh.len() ==> #[trigger] values[k] == match lookup_from(rec, dh[k], 0) {
                Some(v) => v,
                None => Seq::<char>::empty(),
            },
            strings_view(cells@) == values.subrange(0, j as int),
        decreases data_headers@.len() - j,
    {
        assert(dh[j as int] == data_headers@[j as int]@);
        let cell = match lookup(record, &data_headers[j]) {
            Some(v) => v,
            None => String::new(),
        };
        assert(cell@ == values[j as int]);
        let ghost before = cells@;
        cells.push(cell);
        assert(strings_view(cells@) =~= strings_view(before).push(values[j as int]));
        j = j + 1;
        assert(strings_view(cells@) =~= values.subrange(0, j as int));
    }
    assert(values.subrange(0, dh.len() as int) =~= values);
    match rssi_col {
        Some(c) => {
            cells.push(rounddown_string(c, row, n));
            cells.push(pass_string(db_col, row));
            assert(strings_view(cells@) =~= values + seq![
                rounddown_formula(c as nat, row as nat, n as nat),
                pass_formula(db_col as nat, row as nat),
            ]);
        },
        None => {},
    }
    cells
}

/// The cells of the report of test runs, row by row (see `report_rows`):
/// `headers` are the metric columns after the fixed ones, and each record
/// gives metric values by name.
pub fn report_layout(headers: &Vec<String>, records: &Vec<Vec<(String, String)>>) -> (r: Vec<
    Vec<String>,
>)
    ensures
        rows_view(r@) == report_rows(strings_view(headers@), records_view(records@)),
{
    let mut data_headers: Vec<String> = Vec::new();
    data_headers.push(String::from_str("chip_number"));
    data_headers.push(String::from_str("software"));
    data_headers.push(String::from_str("chip_type"));
    data_headers.push(String::from_str("flashed_id"));
    data_headers.push(String::from_str("flashed_time"));
    assert(strings_view(data_headers@) =~= static_headers());
    let mut k: usize = 0;
    while k < headers.len()
        invariant
            0 <= k <= headers@.len(),
            strings_view(data_headers@) == static_headers() + strings_view(headers@).subrange(
                0,
                k as int,
            ),
        decreases headers@.len() - k,
    {
        let h = headers[k].clone();
        assert(h@ == strings_view(headers@)[k as int]);
        let ghost before = data_headers@;
        data_headers.push(h);
        assert(strings_view(data_headers@) =~= strings_view(before).push(h@));
        k = k + 1;
        assert(strings_view(data_headers@) =~= static_headers() + strings_view(headers@).subrange(
            0,
            k as int,
        ));
    }
    assert(strings_view(headers@).subrange(0, headers@.len() as int) =~= strings_view(headers@));
    let ghost dh = static_headers() + strings_view(headers@);
    let mut all_headers = data_headers.clone();
    assert(all_headers@ =~= data_headers@);
    all_headers.push(String::from_str("db_vs_best"));
    all_headers.push(String::from_str("PASS"));
    assert(strings_view(all_headers@) =~= dh + calc_headers());

    let rssi_col = position_of(&data_headers, "rssi");
    let db_col = match position_of(&all_headers, "db_vs_best") {
        Some(d) => d,
        None => 0,
    };
    let ghost rssi_nat = match rssi_col {
        Some(c) => Some(c as nat),
        None => None,
    };
    let n = records.len() as u128;
    let ghost recs = records_view(records@);
    let ghost body = Seq::new(
        recs.len(),
        |i: int| record_row(dh, recs[i], (i + 2) as nat, n as nat, rssi_nat, db_col as nat),
    );

    let mut rows: Vec<Vec<String>> = Vec::new();
    rows.push(all_headers);
    let mut i: usize = 0;
    while i < records.len()
        invariant
            0 <= i <= records@.len(),
            n == records@.len(),
            n <= usize::MAX,
            recs == records_view(records@),
            strings_view(data_headers@) == dh,
            body.len() == recs.len(),
            forall|m: int| 0 <= m < recs.len() ==> #[trigger] body[m] == record_row(dh, recs[m], (m + 2) as nat, n as nat, rssi_nat, db_col as nat),
            rssi_nat == match rssi_col {
                Some(c) => Some(c as nat),
                None => None,
            },
            rows_view(rows@) == seq![dh + calc_headers()] + body.subrange(0, i as int),
        decreases records@.len() - i,
    {
        let cells = record_row_cells(&data_headers, &records[i], i as u128 + 2, n, rssi_col, db_col);
        assert(recs[i as int] == record_view(records@[i as int]));
        assert(strings_view(cells@) == body[i as int]);
        let ghost before = rows@;
        rows.push(cells);
        assert(rows_view(rows@) =~= rows_view(before).push(body[i as int]));
        i = i + 1;
        assert(rows_view(rows@) =~= seq![dh + calc_headers()] + body.subrange(0, i as int));
    }
    assert(body.subrange(0, recs.len() as int) =~= body);
    let ghost blank = Seq::<Seq<char>>::empty();
    let ghost head = seq![dh + calc_headers()] + body + seq![blank, blank, blank];
    let ghost before = rows@;
    rows.push(Vec::new());
    rows.push(Vec::new());
    rows.push(Vec::new());
    assert(strings_view(rows@[rows@.len() - 1]@) =~= blank);
    assert(strings_view(rows@[rows@.len() - 2]@) =~= blank);
    assert(strings_view(rows@[rows@.len() - 3]@) =~= blank);
    assert(rows_view(rows@) =~= head);
    match rssi_col {
        Some(c) => {
            let mut last: Vec<String> = Vec::new();
            last.push(String::from_str("Top 5dB average:"));
            last.push(top_average_string(c, n));
            assert(strings_view(last@) =~= seq!["Top 5dB average:"@, top_average_formula(c as nat, n as nat)]);
            rows.push(last);
            assert(rows_view(rows@) =~= head + seq![seq!["Top 5dB average:"@, top_average_formula(c as nat, n as nat)]]);
        },
        None => {},
    }
    assert(rows_view(rows@) =~= report_rows(strings_view(headers@), records_view(records@)));
    rows
}

} // verus!
