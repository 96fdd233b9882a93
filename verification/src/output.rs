//! What a command shows: field texts, tables, JSON documents and messages.
use vstd::prelude::*;
use crate::api::client::{error_text, ApiError};
use crate::json::{items_view, json_text, to_text, Json, JsonValue};
use crate::text::{char_count, concat, owned, pad_right, push_char, push_spaces, views};

verus! {

/// The text shown for a missing or null value: an em dash.
pub open spec fn dash() -> Seq<char> {
    seq!['\u{2014}']
}

/// How the field `key` of a value is shown: a string as itself, a missing
/// field or null as a dash, anything else as its compact JSON text.
pub open spec fn val_text(v: JsonValue, key: Seq<char>) -> Seq<char> {
    match v.get(key) {
        None => dash(),
        Some(JsonValue::Null) => dash(),
        Some(JsonValue::String(s)) => s,
        Some(x) => json_text(x),
    }
}

/// The dash, as a string.
pub fn dash_string() -> (s: String)
    ensures
        s@ == dash(),
{
    let mut s = String::new();
    push_char(&mut s, '\u{2014}');
    assert(s@ =~= dash());
    s
}

/// The text shown for the field `key` of `v`.
pub fn val_str(v: &Json, key: &str) -> (s: String)
    ensures
        s@ == val_text(v@, key@),
{
    match v.get(key) {
        None => dash_string(),
        Some(x) => match x {
            Json::Null => dash_string(),
            Json::String(t) => t.clone(),
            _ => to_text(x),
        },
    }
}

/// One thing a command shows.
#[derive(Debug)]
pub enum Output {
    /// A JSON document, shown pretty-printed.
    Json(Json),
    /// A line of text.
    Line(String),
    /// A table: column headers and rows of cells.
    Table { headers: Vec<String>, rows: Vec<Vec<String>> },
    /// A success message.
    Success(String),
    /// An error message.
    Error(String),
}

/// The view of an [`Output`].
pub enum OutputView {
    Json(JsonValue),
    Line(Seq<char>),
    Table { headers: Seq<Seq<char>>, rows: Seq<Seq<Seq<char>>> },
    Success(Seq<char>),
    Error(Seq<char>),
}

/// The views of rows of cells.
pub open spec fn rows_view(rows: Seq<Vec<String>>) -> Seq<Seq<Seq<char>>> {
    Seq::new(rows.len(), |i: int| views(rows[i]@))
}

impl View for Output {
    type V = OutputView;

    open spec fn view(&self) -> OutputView {
        match self {
            Output::Json(j) => OutputView::Json(j@),
            Output::Line(s) => OutputView::Line(s@),
            Output::Table { headers, rows } => OutputView::Table {
                headers: views(headers@),
                rows: rows_view(rows@),
            },
            Output::Success(s) => OutputView::Success(s@),
            Output::Error(s) => OutputView::Error(s@),
        }
    }
}

/// The views of a sequence of outputs.
pub open spec fn outputs_view(o: Seq<Output>) -> Seq<OutputView> {
    Seq::new(o.len(), |i: int| o[i]@)
}

/// The views of string literals.
pub open spec fn strs_view(s: Seq<&str>) -> Seq<Seq<char>> {
    Seq::new(s.len(), |i: int| s[i]@)
}

/// Owned copies of string literals.
pub fn strings(s: &[&str]) -> (v: Vec<String>)
    ensures
        views(v@) == strs_view(s@),
{
    let mut v: Vec<String> = Vec::new();
    let mut i: usize = 0;
    while i < s.len()
        invariant
            i <= s@.len(),
            v@.len() == i,
            views(v@) == strs_view(s@).take(i as int),
        decreases s@.len() - i,
    {
        assert(v@.len() == i);
        let x = owned(s[i]);
        v.push(x);
        assert(views(v@)[i as int] == x@);
        i = i + 1;
        assert(views(v@) =~= strs_view(s@).take(i as int));
    }
    assert(strs_view(s@).take(i as int) =~= strs_view(s@));
    v
}

/// A single output.
pub fn one(o: Output) -> (v: Vec<Output>)
    ensures
        outputs_view(v@) == seq![o@],
{
    let mut v: Vec<Output> = Vec::new();
    v.push(o);
    assert(outputs_view(v@) =~= seq![o@]);
    v
}

/// Two outputs, in order.
pub fn two(a: Output, b: Output) -> (v: Vec<Output>)
    ensures
        outputs_view(v@) == seq![a@, b@],
{
    let mut v: Vec<Output> = Vec::new();
    v.push(a);
    v.push(b);
    assert(outputs_view(v@) =~= seq![a@, b@]);
    v
}

/// What is shown for a failed call: its error message.
pub open spec fn error_outputs(prefix: Seq<char>, e: crate::api::client::ApiErrorView) -> Seq<
    OutputView,
> {
    seq![OutputView::Error(prefix + error_text(e))]
}

/// Shows a failed call, its message after `prefix`.
pub fn show_error(prefix: &str, e: &ApiError) -> (v: Vec<Output>)
    ensures
        outputs_view(v@) == error_outputs(prefix@, e@),
{
    let m = e.message();
    one(Output::Error(concat(prefix, m.as_str())))
}

/// Where the rows of a listing are found in a reply.
pub enum ListSource {
    /// The `data` array of a page, or the reply itself when it is an array.
    DataOrArray,
    /// Only the `data` array of a page.
    Data,
    /// Only the reply itself, when it is an array.
    Array,
    /// The array in the named field.
    Field(&'static str),
}

/// The items a listing shows, if the reply holds them where it is looked.
pub open spec fn list_items(data: JsonValue, source: ListSource) -> Option<Seq<JsonValue>> {
    let in_data = match data.get("data"@) {
        Some(JsonValue::Array(items)) => Some(items),
        _ => None,
    };
    let itself = match data {
        JsonValue::Array(items) => Some(items),
        _ => None,
    };
    match source {
        ListSource::DataOrArray => if in_data is Some {
            in_data
        } else {
            itself
        },
        ListSource::Data => in_data,
        ListSource::Array => itself,
        ListSource::Field(name) => match data.get(name@) {
            Some(JsonValue::Array(items)) => Some(items),
            _ => None,
        },
    }
}

/// The items of a listing.
pub fn find_items<'a>(data: &'a Json, source: &ListSource) -> (r: Option<&'a Vec<Json>>)
    ensures
        match list_items(data@, *source) {
            Some(items) => r matches Some(v) && items_view(v@) == items,
            None => r is None,
        },
{
    let in_data = match data.get("data") {
        Some(d) => d.as_array(),
        None => None,
    };
    match source {
        ListSource::DataOrArray => match in_data {
            Some(v) => Some(v),
            None => data.as_array(),
        },
        ListSource::Data => in_data,
        ListSource::Array => data.as_array(),
        ListSource::Field(name) => match data.get(name) {
            Some(d) => d.as_array(),
            None => None,
        },
    }
}

/// The cells of a table: for each item, the texts of the named fields.
pub open spec fn rows_of(items: Seq<JsonValue>, keys: Seq<Seq<char>>) -> Seq<Seq<Seq<char>>> {
    Seq::new(items.len(), |i: int| Seq::new(keys.len(), |k: int| val_text(items[i], keys[k])))
}

/// The texts of the named fields of one item.
pub fn row_of(item: &Json, keys: &[&str]) -> (r: Vec<String>)
    ensures
        views(r@) == Seq::new(keys@.len(), |k: int| val_text(item@, keys@[k]@)),
{
    let mut r: Vec<String> = Vec::new();
    let mut k: usize = 0;
    while k < keys.len()
        invariant
            k <= keys@.len(),
            r@.len() == k,
            forall|x: int| 0 <= x < k ==> #[trigger] r@[x]@ == val_text(item@, keys@[x]@),
        decreases keys@.len() - k,
    {
        let cell = val_str(item, keys[k]);
        r.push(cell);
        k = k + 1;
    }
    assert(views(r@) =~= Seq::new(keys@.len(), |k: int| val_text(item@, keys@[k]@)));
    r
}

/// The rows of a table of items.
pub fn table_rows(items: &Vec<Json>, keys: &[&str]) -> (rows: Vec<Vec<String>>)
    ensures
        rows_view(rows@) == rows_of(items_view(items@), strs_view(keys@)),
{
    let mut rows: Vec<Vec<String>> = Vec::new();
    let mut i: usize = 0;
    while i < items.len()
        invariant
            i <= items@.len(),
            rows@.len() == i,
            rows_view(rows@) == rows_of(items_view(items@), strs_view(keys@)).take(i as int),
        decreases items@.len() - i,
    {
        let row = row_of(&items[i], keys);
        assert(views(row@) =~= rows_of(items_view(items@), strs_view(keys@))[i as int]);
        rows.push(row);
        i = i + 1;
        assert(rows_view(rows@) =~= rows_of(items_view(items@), strs_view(keys@)).take(i as int));
    }
    assert(rows_of(items_view(items@), strs_view(keys@)).take(i as int) =~= rows_of(
        items_view(items@),
        strs_view(keys@),
    ));
    rows
}

/// A listing: the raw JSON when asked for, otherwise a table of the items
/// found, or the raw JSON when there are none where they are looked for.
pub open spec fn listing(
    data: JsonValue,
    json: bool,
    source: ListSource,
    headers: Seq<Seq<char>>,
    keys: Seq<Seq<char>>,
) -> Seq<OutputView> {
    if json {
        seq![OutputView::Json(data)]
    } else {
        match list_items(data, source) {
            Some(items) => seq![OutputView::Table { headers, rows: rows_of(items, keys) }],
            None => seq![OutputView::Json(data)],
        }
    }
}

/// Shows a listing.
pub fn show_listing(
    data: Json,
    json: bool,
    source: ListSource,
    headers: &[&str],
    keys: &[&str],
) -> (v: Vec<Output>)
    ensures
        outputs_view(v@) == listing(data@, json, source, strs_view(headers@), strs_view(keys@)),
{
    if json {
        return one(Output::Json(data));
    }
    let rows = match find_items(&data, &source) {
        Some(items) => Some(table_rows(items, keys)),
        None => None,
    };
    match rows {
        Some(rows) => one(Output::Table { headers: strings(headers), rows }),
        None => one(Output::Json(data)),
    }
}

/// The headers of a list of columns, each given as its header and the
/// field it shows.
pub open spec fn column_headers(columns: Seq<(Seq<char>, Seq<char>)>) -> Seq<Seq<char>> {
    Seq::new(columns.len(), |k: int| columns[k].0)
}

/// The fields a list of columns shows.
pub open spec fn column_keys(columns: Seq<(Seq<char>, Seq<char>)>) -> Seq<Seq<char>> {
    Seq::new(columns.len(), |k: int| columns[k].1)
}

/// `out` is a single table with one row per item, in order, whose column
/// `k` is headed `columns[k].0` and holds, in each row, the text of that
/// item's field `columns[k].1`.
pub open spec fn shows_columns(
    out: Seq<OutputView>,
    items: Seq<JsonValue>,
    columns: Seq<(Seq<char>, Seq<char>)>,
) -> bool {
    &&& out.len() == 1
    &&& out[0] is Table
    &&& out[0]->headers.len() == columns.len()
    &&& forall|k: int| 0 <= k < columns.len() ==> #[trigger] out[0]->headers[k] == columns[k].0
    &&& out[0]->rows.len() == items.len()
    &&& forall|i: int| 0 <= i < items.len() ==> #[trigger] out[0]->rows[i].len() == columns.len()
    &&& forall|i: int, k: int|
        0 <= i < items.len() && 0 <= k < columns.len() ==> #[trigger] out[0]->rows[i][k]
            == val_text(items[i], columns[k].1)
}

/// A listing of items found, without `--json`, is the table of its columns.
pub proof fn lemma_listing_columns(
    data: JsonValue,
    source: ListSource,
    columns: Seq<(Seq<char>, Seq<char>)>,
)
    requires
        list_items(data, source) is Some,
    ensures
        shows_columns(
            listing(data, false, source, column_headers(columns), column_keys(columns)),
            list_items(data, source)->Some_0,
            columns,
        ),
{
}

/// `out` is one line per field, in order: the label `fields[k].0` followed
/// by the text of the field `fields[k].1` of `data`.
pub open spec fn shows_fields(
    out: Seq<OutputView>,
    data: JsonValue,
    fields: Seq<(Seq<char>, Seq<char>)>,
) -> bool {
    &&& out.len() == fields.len()
    &&& forall|k: int|
        0 <= k < fields.len() ==> #[trigger] out[k] == OutputView::Line(
            fields[k].0 + val_text(data, fields[k].1),
        )
}

/// Details without `--json` are the labelled lines of their fields.
pub proof fn lemma_details_fields(data: JsonValue, fields: Seq<(Seq<char>, Seq<char>)>)
    ensures
        shows_fields(details(data, false, column_headers(fields), column_keys(fields)), data, fields),
{
}

/// Labelled lines: for each field, its label followed by its text.
pub open spec fn labelled(data: JsonValue, labels: Seq<Seq<char>>, keys: Seq<Seq<char>>) -> Seq<
    OutputView,
> {
    Seq::new(keys.len(), |k: int| OutputView::Line(labels[k] + val_text(data, keys[k])))
}

/// Details of one item: the raw JSON when asked for, otherwise labelled
/// lines.
pub open spec fn details(
    data: JsonValue,
    json: bool,
    labels: Seq<Seq<char>>,
    keys: Seq<Seq<char>>,
) -> Seq<OutputView> {
    if json {
        seq![OutputView::Json(data)]
    } else {
        labelled(data, labels, keys)
    }
}

/// Shows labelled lines for the named fields.
pub fn show_labelled(data: &Json, labels: &[&str], keys: &[&str]) -> (v: Vec<Output>)
    requires
        labels@.len() == keys@.len(),
    ensures
        outputs_view(v@) == labelled(data@, strs_view(labels@), strs_view(keys@)),
{
    let mut v: Vec<Output> = Vec::new();
    let mut k: usize = 0;
    while k < keys.len()
        invariant
            k <= keys@.len(),
            labels@.len() == keys@.len(),
            v@.len() == k,
            outputs_view(v@) == labelled(data@, strs_view(labels@), strs_view(keys@)).take(
                k as int,
            ),
        decreases keys@.len() - k,
    {
        assert(v@.len() == k);
        let value = val_str(data, keys[k]);
        v.push(Output::Line(concat(labels[k], value.as_str())));
        k = k + 1;
        assert(outputs_view(v@) =~= labelled(data@, strs_view(labels@), strs_view(keys@)).take(
            k as int,
        ));
    }
    assert(labelled(data@, strs_view(labels@), strs_view(keys@)).take(k as int) =~= labelled(
        data@,
        strs_view(labels@),
        strs_view(keys@),
    ));
    v
}

/// Shows details of one item.
pub fn show_details(data: Json, json: bool, labels: &[&str], keys: &[&str]) -> (v: Vec<Output>)
    requires
        labels@.len() == keys@.len(),
    ensures
        outputs_view(v@) == details(data@, json, strs_view(labels@), strs_view(keys@)),
{
    if json {
        one(Output::Json(data))
    } else {
        show_labelled(&data, labels, keys)
    }
}

/// After creating something: a message naming the new item's id, then the
/// item.
pub open spec fn created(data: JsonValue, message: Seq<char>) -> Seq<OutputView> {
    seq![OutputView::Success(message + val_text(data, "id"@)), OutputView::Json(data)]
}

/// Shows a created item.
pub fn show_created(data: Json, message: &str) -> (v: Vec<Output>)
    ensures
        outputs_view(v@) == created(data@, message@),
{
    let id = val_str(&data, "id");
    two(Output::Success(concat(message, id.as_str())), Output::Json(data))
}

/// After changing something: a message, then the reply.
pub open spec fn changed(data: JsonValue, message: Seq<char>) -> Seq<OutputView> {
    seq![OutputView::Success(message), OutputView::Json(data)]
}

/// Shows a changed item.
pub fn show_changed(data: Json, message: &str) -> (v: Vec<Output>)
    ensures
        outputs_view(v@) == changed(data@, message@),
{
    two(Output::Success(owned(message)), Output::Json(data))
}

/// A success message alone.
pub fn show_success(message: &str) -> (v: Vec<Output>)
    ensures
        outputs_view(v@) == seq![OutputView::Success(message@)],
{
    one(Output::Success(owned(message)))
}

/// The raw JSON alone.
pub fn show_json(data: Json) -> (v: Vec<Output>)
    ensures
        outputs_view(v@) == seq![OutputView::Json(data@)],
{
    one(Output::Json(data))
}

// ---------------------------------------------------------------------------
// Tables as text
// ---------------------------------------------------------------------------

/// The width of column `k` over the header and the first `n` rows: the
/// largest number of characters of its cells.
pub open spec fn column_width(headers: Seq<Seq<char>>, rows: Seq<Seq<Seq<char>>>, k: int, n: nat) -> nat
    decreases n,
{
    if n == 0 {
        headers[k].len()
    } else {
        let w = column_width(headers, rows, k, (n - 1) as nat);
        let c = rows[n - 1][k].len();
        if c > w {
            c
        } else {
            w
        }
    }
}

/// The widths of all columns.
pub open spec fn column_widths(headers: Seq<Seq<char>>, rows: Seq<Seq<Seq<char>>>) -> Seq<nat> {
    Seq::new(headers.len(), |k: int| column_width(headers, rows, k, rows.len()))
}

/// One line of a table: the cells padded to their column widths, separated
/// by two spaces.
pub open spec fn table_line(cells: Seq<Seq<char>>, widths: Seq<nat>) -> Seq<char>
    decreases cells.len(),
{
    if cells.len() == 0 {
        Seq::empty()
    } else if cells.len() == 1 {
        pad_right(cells[0], widths[0])
    } else {
        table_line(cells.drop_last(), widths) + "  "@ + pad_right(
            cells.last(),
            widths[cells.len() - 1],
        )
    }
}

/// The lines of a table: the header line, then one line per row.
pub open spec fn table_lines(headers: Seq<Seq<char>>, rows: Seq<Seq<Seq<char>>>) -> Seq<Seq<char>> {
    let widths = column_widths(headers, rows);
    seq![table_line(headers, widths)] + Seq::new(rows.len(), |i: int| table_line(rows[i], widths))
}

/// Every column of a table is at least as wide as each of its cells.
pub proof fn lemma_width_covers(headers: Seq<Seq<char>>, rows: Seq<Seq<Seq<char>>>, k: int, n: nat, i: int)
    requires
        0 <= i < n,
        n <= rows.len(),
    ensures
        rows[i][k].len() <= column_width(headers, rows, k, n),
    decreases n,
{
    if i < n - 1 {
        lemma_width_covers(headers, rows, k, (n - 1) as nat, i);
    }
}

/// Every column of a table is at least as wide as its header.
pub proof fn lemma_width_covers_header(headers: Seq<Seq<char>>, rows: Seq<Seq<Seq<char>>>, k: int, n: nat)
    ensures
        headers[k].len() <= column_width(headers, rows, k, n),
    decreases n,
{
    if n > 0 {
        lemma_width_covers_header(headers, rows, k, (n - 1) as nat);
    }
}

/// The number of characters of a table line over the first `n` columns of
/// these widths: the widths plus two spaces between columns.
pub open spec fn line_width(widths: Seq<nat>, n: nat) -> nat
    decreases n,
{
    if n == 0 {
        0
    } else if n == 1 {
        widths[0]
    } else {
        line_width(widths, (n - 1) as nat) + 2 + widths[n - 1]
    }
}

/// A line whose cells fit their columns is as long as the columns.
proof fn lemma_line_length(cells: Seq<Seq<char>>, widths: Seq<nat>)
    requires
        cells.len() <= widths.len(),
        forall|k: int| 0 <= k < cells.len() ==> #[trigger] cells[k].len() <= widths[k],
    ensures
        table_line(cells, widths).len() == line_width(widths, cells.len()),
    decreases cells.len(),
{
    if cells.len() == 1 {
        assert(pad_right(cells[0], widths[0]).len() == widths[0]);
    } else if cells.len() > 1 {
        let n = cells.len() - 1;
        let rest = cells.drop_last();
        assert forall|k: int| 0 <= k < rest.len() implies #[trigger] rest[k].len() <= widths[k] by {
            assert(rest[k] == cells[k]);
        }
        lemma_line_length(rest, widths);
        assert(cells[n].len() <= widths[n]);
        assert(pad_right(cells.last(), widths[n]).len() == widths[n]);
        reveal_strlit("  ");
        assert(table_line(cells, widths) == table_line(rest, widths) + "  "@ + pad_right(
            cells.last(),
            widths[n],
        ));
        assert(line_width(widths, cells.len()) == line_width(widths, rest.len()) + 2 + widths[n]);
    }
}

/// The columns of a table line up: the header line and every row line
/// have the same number of characters.
pub proof fn lemma_table_aligned(headers: Seq<Seq<char>>, rows: Seq<Seq<Seq<char>>>)
    requires
        forall|i: int| 0 <= i < rows.len() ==> #[trigger] rows[i].len() == headers.len(),
    ensures
        forall|i: int|
            0 <= i < table_lines(headers, rows).len() ==> #[trigger] table_lines(headers, rows)[i].len()
                == line_width(column_widths(headers, rows), headers.len()),
{
    let widths = column_widths(headers, rows);
    assert forall|k: int| 0 <= k < headers.len() implies #[trigger] headers[k].len() <= widths[k] by {
        lemma_width_covers_header(headers, rows, k, rows.len());
    }
    lemma_line_length(headers, widths);
    assert forall|i: int| 0 <= i < rows.len() implies #[trigger] table_line(rows[i], widths).len()
        == line_width(widths, headers.len()) by {
        assert forall|k: int| 0 <= k < rows[i].len() implies #[trigger] rows[i][k].len() <= widths[k] by {
            lemma_width_covers(headers, rows, k, rows.len(), i);
        }
        lemma_line_length(rows[i], widths);
    }
    assert forall|i: int| 0 <= i < table_lines(headers, rows).len() implies #[trigger] table_lines(
        headers,
        rows,
    )[i].len() == line_width(widths, headers.len()) by {
        if i > 0 {
            assert(table_lines(headers, rows)[i] == table_line(rows[i - 1], widths));
        }
    }
}

/// Computes the column widths.
fn widths_of(headers: &Vec<String>, rows: &Vec<Vec<String>>) -> (w: Vec<usize>)
    requires
        forall|i: int| 0 <= i < rows@.len() ==> #[trigger] rows@[i]@.len() == headers@.len(),
    ensures
        w@.len() == headers@.len(),
        forall|k: int|
            0 <= k < headers@.len() ==> w@[k] as nat == column_widths(
                views(headers@),
                rows_view(rows@),
            )[k],
{
    let ghost hv = views(headers@);
    let ghost rv = rows_view(rows@);
    let mut w: Vec<usize> = Vec::new();
    let mut k: usize = 0;
    while k < headers.len()
        invariant
            k <= headers@.len(),
            hv == views(headers@),
            rv == rows_view(rows@),
            forall|i: int| 0 <= i < rows@.len() ==> #[trigger] rows@[i]@.len() == headers@.len(),
            w@.len() == k,
            forall|x: int| 0 <= x < k ==> w@[x] as nat == column_width(hv, rv, x, rv.len()),
        decreases headers@.len() - k,
    {
        let mut width = char_count(headers[k].as_str());
        let mut i: usize = 0;
        while i < rows.len()
            invariant
                k < headers@.len(),
                i <= rows@.len(),
                hv == views(headers@),
                rv == rows_view(rows@),
                forall|r: int| 0 <= r < rows@.len() ==> #[trigger] rows@[r]@.len() == headers@.len(),
                width as nat == column_width(hv, rv, k as int, i as nat),
            decreases rows@.len() - i,
        {
            let c = char_count(rows[i][k].as_str());
            assert(rv[i as int][k as int] == rows@[i as int]@[k as int]@);
            if c > width {
                width = c;
            }
            i = i + 1;
        }
        w.push(width);
        k = k + 1;
    }
    w
}

/// Appends one table line.
fn write_line(cells: &Vec<String>, widths: &Vec<usize>, out: &mut String)
    requires
        cells@.len() == widths@.len(),
    ensures
        final(out)@ == old(out)@ + table_line(
            views(cells@),
            Seq::new(widths@.len(), |k: int| widths@[k] as nat),
        ),
{
    let ghost cv = views(cells@);
    let ghost wv = Seq::new(widths@.len(), |k: int| widths@[k] as nat);
    let mut k: usize = 0;
    while k < cells.len()
        invariant
            k <= cells@.len(),
            cells@.len() == widths@.len(),
            cv == views(cells@),
            wv == Seq::new(widths@.len(), |x: int| widths@[x] as nat),
            out@ == old(out)@ + table_line(cv.take(k as int), wv),
        decreases cells@.len() - k,
    {
        assert(cv.take(k + 1).drop_last() =~= cv.take(k as int));
        if k > 0 {
            out.append("  ");
        }
        let cell = cells[k].as_str();
        out.append(cell);
        let n = char_count(cell);
        if n < widths[k] {
            push_spaces(out, widths[k] - n);
        }
        k = k + 1;
        assert(out@ =~= old(out)@ + table_line(cv.take(k as int), wv));
    }
    assert(cv.take(k as int) =~= cv);
}

/// The lines of a table as text.
pub fn format_table(headers: &Vec<String>, rows: &Vec<Vec<String>>) -> (lines: Vec<String>)
    requires
        forall|i: int| 0 <= i < rows@.len() ==> #[trigger] rows@[i]@.len() == headers@.len(),
    ensures
        views(lines@) == table_lines(views(headers@), rows_view(rows@)),
{
    let widths = widths_of(headers, rows);
    let ghost wv = Seq::new(widths@.len(), |k: int| widths@[k] as nat);
    assert(wv =~= column_widths(views(headers@), rows_view(rows@)));
    let mut lines: Vec<String> = Vec::new();
    let mut head = String::new();
    write_line(headers, &widths, &mut head);
    lines.push(head);
    let mut i: usize = 0;
    while i < rows.len()
        invariant
            i <= rows@.len(),
            widths@.len() == headers@.len(),
            wv == column_widths(views(headers@), rows_view(rows@)),
            wv == Seq::new(widths@.len(), |k: int| widths@[k] as nat),
            forall|r: int| 0 <= r < rows@.len() ==> #[trigger] rows@[r]@.len() == headers@.len(),
            lines@.len() == i + 1,
            views(lines@) == table_lines(views(headers@), rows_view(rows@)).take(i + 1),
        decreases rows@.len() - i,
    {
        assert(lines@.len() == i + 1);
        let mut line = String::new();
        write_line(&rows[i], &widths, &mut line);
        assert(views(rows@[i as int]@) == rows_view(rows@)[i as int]);
        lines.push(line);
        i = i + 1;
        assert(views(lines@) =~= table_lines(views(headers@), rows_view(rows@)).take(i + 1));
    }
    assert(table_lines(views(headers@), rows_view(rows@)).take(i + 1) =~= table_lines(
        views(headers@),
        rows_view(rows@),
    ));
    lines
}

} // verus!
