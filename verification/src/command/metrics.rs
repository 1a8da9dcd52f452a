//! Reshapes the metrics snapshots of the processes into tables: one of the
//! supervising process, and three across the workers, with one row per key
//! and one group of columns per worker. Values are shown as received.

use vstd::prelude::*;
use vstd::string::*;
use crate::command::messages::{
    texts, snapshots, BackendMetrics, FilteredData, Percentiles, TaggedMetrics, WorkerMetrics,
    WorkerMetricsView,
};
use crate::command::tables::{
    all_keys, append_copies, append_key_rows, block_cells, block_view, blocks_have_key, blocks_view,
    first_group, key_cells, key_row, key_rows, lemma_cells_width, lemma_columns_of_process,
    lemma_keys_complete, lemma_keys_distinct, row_texts, Block, KeyedCells, Table,
};
use crate::text::{decimal, decimal_text, signed_decimal, signed_decimal_text};

verus! {

/// A tagged snapshot, as a value.
pub type Snapshot = (Seq<char>, WorkerMetricsView);

/// The cell of a counter value: the kind of the value, then the value in
/// round brackets.
pub open spec fn filtered_cell(value: FilteredData) -> Seq<char> {
    match value {
        FilteredData::Gauge(n) => "Gauge("@ + decimal(n as nat) + ")"@,
        FilteredData::Count(n) => "Count("@ + signed_decimal(n as int) + ")"@,
        FilteredData::Time(n) => "Time("@ + decimal(n as nat) + ")"@,
    }
}

/// The eight cells of a percentile set: the number of samples, then the
/// percentiles in rising order.
pub open spec fn percentile_cells(p: Percentiles) -> Seq<Seq<char>> {
    seq![
        decimal(p.samples as nat),
        decimal(p.p_50 as nat),
        decimal(p.p_90 as nat),
        decimal(p.p_99 as nat),
        decimal(p.p_99_9 as nat),
        decimal(p.p_99_99 as nat),
        decimal(p.p_99_999 as nat),
        decimal(p.p_100 as nat),
    ]
}

/// The ten cells of a backend: bytes out, bytes in, then its percentile set.
pub open spec fn backend_cells(b: BackendMetrics) -> Seq<Seq<char>> {
    seq![decimal(b.bytes_out as nat), decimal(b.bytes_in as nat)] + percentile_cells(b.percentiles)
}

/// The titles of the eight percentile columns of the worker `tag`.
pub open spec fn percentile_titles(tag: Seq<char>) -> Seq<Seq<char>> {
    seq![
        tag + " samples"@,
        tag + " p50%"@,
        tag + " p90%"@,
        tag + " p99%"@,
        tag + " p99.9%"@,
        tag + " p99.99%"@,
        tag + " p99.999%"@,
        tag + " p100%"@,
    ]
}

/// The titles of the ten backend columns of the worker `tag`.
pub open spec fn backend_titles(tag: Seq<char>) -> Seq<Seq<char>> {
    seq![tag + " bytes out"@, tag + " bytes in"@] + percentile_titles(tag)
}

/// The percentile titles of the workers, worker after worker.
pub open spec fn percentile_header(tags: Seq<Seq<char>>) -> Seq<Seq<char>>
    decreases tags.len(),
{
    if tags.len() == 0 {
        Seq::empty()
    } else {
        percentile_header(tags.drop_last()) + percentile_titles(tags.last())
    }
}

/// The backend titles of the workers, worker after worker.
pub open spec fn backend_header(tags: Seq<Seq<char>>) -> Seq<Seq<char>>
    decreases tags.len(),
{
    if tags.len() == 0 {
        Seq::empty()
    } else {
        backend_header(tags.drop_last()) + backend_titles(tags.last())
    }
}

/// The counters of a process, one cell each.
pub open spec fn proxy_block(m: WorkerMetricsView) -> Block {
    m.proxy.map_values(|e: (Seq<char>, FilteredData)| (e.0, seq![filtered_cell(e.1)]))
}

/// The applications of a process, eight cells each.
pub open spec fn application_block(m: WorkerMetricsView) -> Block {
    m.applications.map_values(|e: (Seq<char>, Percentiles)| (e.0, percentile_cells(e.1)))
}

/// The backends of a process, ten cells each.
pub open spec fn backend_block(m: WorkerMetricsView) -> Block {
    m.backends.map_values(|e: (Seq<char>, BackendMetrics)| (e.0, backend_cells(e.1)))
}

/// The blocks of the counters of the workers.
pub open spec fn proxy_blocks(workers: Seq<Snapshot>) -> Seq<Block> {
    workers.map_values(|w: Snapshot| proxy_block(w.1))
}

/// The blocks of the applications of the workers.
pub open spec fn application_blocks(workers: Seq<Snapshot>) -> Seq<Block> {
    workers.map_values(|w: Snapshot| application_block(w.1))
}

/// The blocks of the backends of the workers.
pub open spec fn backend_blocks(workers: Seq<Snapshot>) -> Seq<Block> {
    workers.map_values(|w: Snapshot| backend_block(w.1))
}

/// The snapshot of the supervising process: the first one tagged `master`.
pub open spec fn master_of(data: Seq<Snapshot>) -> Option<WorkerMetricsView>
    decreases data.len(),
{
    if data.len() == 0 {
        None
    } else {
        match master_of(data.drop_last()) {
            Some(m) => Some(m),
            None => if data.last().0 == "master"@ {
                Some(data.last().1)
            } else {
                None
            },
        }
    }
}

/// The snapshots of the workers: all but the first one tagged `master`, in
/// their order.
pub open spec fn workers_of(data: Seq<Snapshot>) -> Seq<Snapshot>
    decreases data.len(),
{
    if data.len() == 0 {
        Seq::empty()
    } else if data.last().0 == "master"@ && master_of(data.drop_last()) is None {
        workers_of(data.drop_last())
    } else {
        workers_of(data.drop_last()).push(data.last())
    }
}

/// The tags of the workers, in their order.
pub open spec fn tags_of(workers: Seq<Snapshot>) -> Seq<Seq<char>> {
    workers.map_values(|w: Snapshot| w.0)
}

/// The table of the supervising process: a header, then one row per counter
/// with its key and its value.
pub open spec fn master_table(m: WorkerMetricsView) -> Seq<Seq<Seq<char>>> {
    seq![seq!["key"@, "value"@]] + m.proxy.map_values(
        |e: (Seq<char>, FilteredData)| seq![e.0, filtered_cell(e.1)],
    )
}

/// The counters across the workers: one column per worker, one row per
/// counter key. The cell of a worker that does not report the counter is
/// empty.
pub open spec fn proxy_table(workers: Seq<Snapshot>) -> Seq<Seq<Seq<char>>> {
    seq![seq!["key"@] + tags_of(workers)] + key_rows(proxy_blocks(workers), 1)
}

/// The applications across the workers: eight columns per worker, one row
/// per application. The cells of a worker that does not report the
/// application are empty.
pub open spec fn application_table(workers: Seq<Snapshot>) -> Seq<Seq<Seq<char>>> {
    seq![seq!["application"@] + percentile_header(tags_of(workers))] + key_rows(
        application_blocks(workers),
        8,
    )
}

/// The backends across the workers: ten columns per worker, one row per
/// backend. The cells of a worker that does not report the backend are
/// empty.
pub open spec fn backend_table(workers: Seq<Snapshot>) -> Seq<Seq<Seq<char>>> {
    seq![seq!["backend"@] + backend_header(tags_of(workers))] + key_rows(backend_blocks(workers), 10)
}

/// The four tables made of a metrics answer.
#[derive(Debug, Clone, PartialEq, Eq)]
pub struct MetricsReport {
    pub master: Option<Table>,
    pub proxy: Table,
    pub applications: Table,
    pub backends: Table,
}

/// The four tables, as values.
pub struct MetricsReportView {
    pub master: Option<Seq<Seq<Seq<char>>>>,
    pub proxy: Seq<Seq<Seq<char>>>,
    pub applications: Seq<Seq<Seq<char>>>,
    pub backends: Seq<Seq<Seq<char>>>,
}

impl View for MetricsReport {
    type V = MetricsReportView;

    open spec fn view(&self) -> MetricsReportView {
        MetricsReportView {
            master: match self.master {
                Some(t) => Some(t@),
                None => None,
            },
            proxy: self.proxy@,
            applications: self.applications@,
            backends: self.backends@,
        }
    }
}

/// The report of a metrics answer.
pub open spec fn report_of(data: Seq<Snapshot>) -> MetricsReportView {
    MetricsReportView {
        master: match master_of(data) {
            Some(m) => Some(master_table(m)),
            None => None,
        },
        proxy: proxy_table(workers_of(data)),
        applications: application_table(workers_of(data)),
        backends: backend_table(workers_of(data)),
    }
}

/// The value of the first entry of `list` under `key`, if there is one.
pub open spec fn entry_of<V>(list: Seq<(Seq<char>, V)>, key: Seq<char>) -> Option<V>
    decreases list.len(),
{
    if list.len() == 0 {
        None
    } else if list.first().0 == key {
        Some(list.first().1)
    } else {
        entry_of(list.drop_first(), key)
    }
}

/// As many empty cells as `width`.
pub open spec fn blanks(width: nat) -> Seq<Seq<char>> {
    Seq::new(width, |c: int| Seq::empty())
}

/// The cell of a worker in the row of a counter: the value that it
/// reported, or an empty cell.
pub open spec fn proxy_cells_of(m: WorkerMetricsView, key: Seq<char>) -> Seq<Seq<char>> {
    match entry_of(m.proxy, key) {
        Some(value) => seq![filtered_cell(value)],
        None => blanks(1),
    }
}

/// The eight cells of a worker in the row of an application: the samples
/// and percentiles that it reported, or empty cells.
pub open spec fn application_cells_of(m: WorkerMetricsView, key: Seq<char>) -> Seq<Seq<char>> {
    match entry_of(m.applications, key) {
        Some(p) => percentile_cells(p),
        None => blanks(8),
    }
}

/// The ten cells of a worker in the row of a backend: what it reported, or
/// empty cells.
pub open spec fn backend_cells_of(m: WorkerMetricsView, key: Seq<char>) -> Seq<Seq<char>> {
    match entry_of(m.backends, key) {
        Some(b) => backend_cells(b),
        None => blanks(10),
    }
}

/// The first group of a block that was made of a list of entries is made
/// of the first entry of the list under the key.
proof fn lemma_first_group<V>(block: Block, list: Seq<(Seq<char>, V)>, key: Seq<char>, cells: spec_fn(V) -> Seq<Seq<char>>)
    requires
        block.len() == list.len(),
        forall|i: int| 0 <= i < list.len() ==> #[trigger] block[i] == (list[i].0, cells(list[i].1)),
    ensures
        first_group(block, key) == match entry_of(list, key) {
            Some(value) => Some(cells(value)),
            None => None,
        },
    decreases block.len(),
{
    if block.len() > 0 {
        assert(block[0] == (list[0].0, cells(list[0].1)));
        if block.first().0 != key {
            let rest = block.drop_first();
            let others = list.drop_first();
            assert forall|i: int| 0 <= i < others.len() implies #[trigger] rest[i] == (
                others[i].0,
                cells(others[i].1),
            ) by {
                assert(rest[i] == block[i + 1]);
                assert(others[i] == list[i + 1]);
            }
            lemma_first_group(rest, others, key, cells);
        }
    }
}

proof fn lemma_percentile_header_width(tags: Seq<Seq<char>>)
    ensures
        percentile_header(tags).len() == 8 * tags.len(),
        backend_header(tags).len() == 10 * tags.len(),
    decreases tags.len(),
{
    if tags.len() > 0 {
        lemma_percentile_header_width(tags.drop_last());
    }
}

/// The header of each table across the workers has the title of the keys
/// and then one column per worker for the counters, eight per worker for
/// the applications, ten per worker for the backends.
pub proof fn lemma_header_widths(workers: Seq<Snapshot>)
    ensures
        proxy_table(workers)[0].len() == 1 + workers.len(),
        application_table(workers)[0].len() == 1 + 8 * workers.len(),
        backend_table(workers)[0].len() == 1 + 10 * workers.len(),
{
    lemma_percentile_header_width(tags_of(workers));
}

/// The application table has, below its header, one row per application
/// key: the rows stand under distinct keys, and a key has a row exactly if
/// some worker reports the application.
pub proof fn lemma_one_row_per_application(workers: Seq<Snapshot>, key: Seq<char>)
    ensures
        application_table(workers).len() == 1 + all_keys(application_blocks(workers)).len(),
        all_keys(application_blocks(workers)).no_duplicates(),
        forall|r: int|
            1 <= r < application_table(workers).len() ==> (#[trigger] application_table(workers)[r])[0]
                == all_keys(application_blocks(workers))[r - 1],
        all_keys(application_blocks(workers)).contains(key) <==> blocks_have_key(
            application_blocks(workers),
            key,
        ),
{
    lemma_keys_distinct(application_blocks(workers));
    lemma_keys_complete(application_blocks(workers), key);
}

/// The row of an application has eight columns for every worker, and the
/// columns of a worker hold the samples and the percentiles that it
/// reported, as they came, or nothing where it did not report the
/// application. So no value stands under the header of another worker.
pub proof fn lemma_application_columns(workers: Seq<Snapshot>, key: Seq<char>, position: int)
    requires
        0 <= position < workers.len(),
    ensures
        key_row(application_blocks(workers), key, 8).len() == 1 + 8 * workers.len(),
        key_row(application_blocks(workers), key, 8)[0] == key,
        key_row(application_blocks(workers), key, 8).subrange(1 + 8 * position, 9 + 8 * position)
            == application_cells_of(workers[position].1, key),
{
    let blocks = application_blocks(workers);
    let m = workers[position].1;
    lemma_first_group(
        blocks[position],
        m.applications,
        key,
        |p: Percentiles| percentile_cells(p),
    );
    lemma_columns_of_process(blocks, key, 8, position);
    assert(block_cells(blocks[position], key, 8) =~= application_cells_of(m, key));
    assert(key_row(blocks, key, 8).subrange(1 + 8 * position, 9 + 8 * position) =~= key_cells(
        blocks,
        key,
        8,
    ).subrange(8 * position, 8 * position + 8));
}

/// The row of a backend has ten columns for every worker, and the columns
/// of a worker hold the bytes, the samples and the percentiles that it
/// reported, as they came, or nothing where it did not report the backend.
pub proof fn lemma_backend_columns(workers: Seq<Snapshot>, key: Seq<char>, position: int)
    requires
        0 <= position < workers.len(),
    ensures
        key_row(backend_blocks(workers), key, 10).len() == 1 + 10 * workers.len(),
        key_row(backend_blocks(workers), key, 10)[0] == key,
        key_row(backend_blocks(workers), key, 10).subrange(1 + 10 * position, 11 + 10 * position)
            == backend_cells_of(workers[position].1, key),
{
    let blocks = backend_blocks(workers);
    let m = workers[position].1;
    lemma_first_group(blocks[position], m.backends, key, |b: BackendMetrics| backend_cells(b));
    lemma_columns_of_process(blocks, key, 10, position);
    assert(block_cells(blocks[position], key, 10) =~= backend_cells_of(m, key));
    assert(key_row(blocks, key, 10).subrange(1 + 10 * position, 11 + 10 * position) =~= key_cells(
        blocks,
        key,
        10,
    ).subrange(10 * position, 10 * position + 10));
}

/// The row of a counter has one column for every worker, and the column of
/// a worker holds the value that it reported, or nothing where it did not
/// report the counter.
pub proof fn lemma_proxy_columns(workers: Seq<Snapshot>, key: Seq<char>, position: int)
    requires
        0 <= position < workers.len(),
    ensures
        key_row(proxy_blocks(workers), key, 1).len() == 1 + workers.len(),
        key_row(proxy_blocks(workers), key, 1)[0] == key,
        key_row(proxy_blocks(workers), key, 1).subrange(1 + position, 2 + position) == proxy_cells_of(
            workers[position].1,
            key,
        ),
{
    let blocks = proxy_blocks(workers);
    let m = workers[position].1;
    lemma_first_group(blocks[position], m.proxy, key, |v: FilteredData| seq![filtered_cell(v)]);
    lemma_columns_of_process(blocks, key, 1, position);
    assert(block_cells(blocks[position], key, 1) =~= proxy_cells_of(m, key));
    assert(key_row(blocks, key, 1).subrange(1 + position, 2 + position) =~= key_cells(
        blocks,
        key,
        1,
    ).subrange(position, position + 1));
}

/// Every row of the three tables across the workers is as wide as the
/// header of its table.
pub proof fn lemma_rows_fit_header(workers: Seq<Snapshot>, r: int)
    ensures
        0 <= r < proxy_table(workers).len() ==> proxy_table(workers)[r].len() == 1 + workers.len(),
        0 <= r < application_table(workers).len() ==> application_table(workers)[r].len() == 1 + 8
            * workers.len(),
        0 <= r < backend_table(workers).len() ==> backend_table(workers)[r].len() == 1 + 10
            * workers.len(),
{
    lemma_header_widths(workers);
    if 1 <= r < proxy_table(workers).len() {
        lemma_cells_width(proxy_blocks(workers), all_keys(proxy_blocks(workers))[r - 1], 1);
    }
    if 1 <= r < application_table(workers).len() {
        lemma_cells_width(application_blocks(workers), all_keys(application_blocks(workers))[r - 1], 8);
    }
    if 1 <= r < backend_table(workers).len() {
        lemma_cells_width(backend_blocks(workers), all_keys(backend_blocks(workers))[r - 1], 10);
    }
}

/// Writes the cell of a counter value.
pub fn filtered_text(value: &FilteredData) -> (res: String)
    ensures
        res@ == filtered_cell(*value),
{
    match value {
        FilteredData::Gauge(n) => {
            let mut res = String::from_str("Gauge(");
            res.append(decimal_text(*n as u64).as_str());
            res.append(")");
            res
        },
        FilteredData::Count(n) => {
            let mut res = String::from_str("Count(");
            res.append(signed_decimal_text(*n).as_str());
            res.append(")");
            res
        },
        FilteredData::Time(n) => {
            let mut res = String::from_str("Time(");
            res.append(decimal_text(*n as u64).as_str());
            res.append(")");
            res
        },
    }
}

/// Writes the eight cells of a percentile set.
pub fn percentile_texts(p: &Percentiles) -> (res: Vec<String>)
    ensures
        texts(res@) == percentile_cells(*p),
{
    let mut res: Vec<String> = Vec::new();
    res.push(decimal_text(p.samples));
    res.push(decimal_text(p.p_50));
    res.push(decimal_text(p.p_90));
    res.push(decimal_text(p.p_99));
    res.push(decimal_text(p.p_99_9));
    res.push(decimal_text(p.p_99_99));
    res.push(decimal_text(p.p_99_999));
    res.push(decimal_text(p.p_100));
    res
}

/// Writes the ten cells of a backend.
pub fn backend_texts(b: &BackendMetrics) -> (res: Vec<String>)
    ensures
        texts(res@) == backend_cells(*b),
{
    let mut res: Vec<String> = Vec::new();
    res.push(decimal_text(b.bytes_out as u64));
    res.push(decimal_text(b.bytes_in as u64));
    let percentiles = percentile_texts(&b.percentiles);
    append_copies(&mut res, &percentiles);
    res
}

fn titled(tag: &String, title: &str) -> (res: String)
    ensures
        res@ == tag@ + title@,
{
    let mut res = tag.clone();
    res.append(title);
    res
}

/// Appends the eight percentile titles of the worker `tag`.
fn push_percentile_titles(header: &mut Vec<String>, tag: &String)
    ensures
        texts(final(header)@) == texts(old(header)@) + percentile_titles(tag@),
{
    header.push(titled(tag, " samples"));
    header.push(titled(tag, " p50%"));
    header.push(titled(tag, " p90%"));
    header.push(titled(tag, " p99%"));
    header.push(titled(tag, " p99.9%"));
    header.push(titled(tag, " p99.99%"));
    header.push(titled(tag, " p99.999%"));
    header.push(titled(tag, " p100%"));
}

/// Appends the ten backend titles of the worker `tag`.
fn push_backend_titles(header: &mut Vec<String>, tag: &String)
    ensures
        texts(final(header)@) == texts(old(header)@) + backend_titles(tag@),
{
    header.push(titled(tag, " bytes out"));
    header.push(titled(tag, " bytes in"));
    push_percentile_titles(header, tag);
}

/// The counters of a process as keyed cells.
fn proxy_cells(m: &WorkerMetrics) -> (res: Vec<KeyedCells>)
    ensures
        block_view(res@) == proxy_block(m@),
{
    let mut res: Vec<KeyedCells> = Vec::new();
    let mut i: usize = 0;
    while i < m.proxy.len()
        invariant
            i <= m.proxy.len(),
            res@.len() == i,
            forall|k: int| 0 <= k < i ==> (#[trigger] res@[k])@ == proxy_block(m@)[k],
        decreases m.proxy.len() - i,
    {
        let mut cells: Vec<String> = Vec::new();
        cells.push(filtered_text(&m.proxy[i].value));
        res.push(KeyedCells { key: m.proxy[i].key.clone(), cells });
        i += 1;
    }
    res
}

/// The applications of a process as keyed cells.
fn application_cells(m: &WorkerMetrics) -> (res: Vec<KeyedCells>)
    ensures
        block_view(res@) == application_block(m@),
{
    let mut res: Vec<KeyedCells> = Vec::new();
    let mut i: usize = 0;
    while i < m.applications.len()
        invariant
            i <= m.applications.len(),
            res@.len() == i,
            forall|k: int| 0 <= k < i ==> (#[trigger] res@[k])@ == application_block(m@)[k],
        decreases m.applications.len() - i,
    {
        let cells = percentile_texts(&m.applications[i].value);
        res.push(KeyedCells { key: m.applications[i].key.clone(), cells });
        i += 1;
    }
    res
}

/// The backends of a process as keyed cells.
fn backend_keyed_cells(m: &WorkerMetrics) -> (res: Vec<KeyedCells>)
    ensures
        block_view(res@) == backend_block(m@),
{
    let mut res: Vec<KeyedCells> = Vec::new();
    let mut i: usize = 0;
    while i < m.backends.len()
        invariant
            i <= m.backends.len(),
            res@.len() == i,
            forall|k: int| 0 <= k < i ==> (#[trigger] res@[k])@ == backend_block(m@)[k],
        decreases m.backends.len() - i,
    {
        let cells = backend_texts(&m.backends[i].value);
        res.push(KeyedCells { key: m.backends[i].key.clone(), cells });
        i += 1;
    }
    res
}

/// The table of the supervising process.
fn master_rows(m: &WorkerMetrics) -> (res: Table)
    ensures
        res@ == master_table(m@),
{
    let mut rows: Vec<Vec<String>> = Vec::new();
    let mut header: Vec<String> = Vec::new();
    header.push(String::from_str("key"));
    header.push(String::from_str("value"));
    rows.push(header);
    let mut i: usize = 0;
    while i < m.proxy.len()
        invariant
            i <= m.proxy.len(),
            rows@.len() == i + 1,
            forall|k: int| 0 <= k <= i ==> texts(#[trigger] rows@[k]@) == master_table(m@)[k],
        decreases m.proxy.len() - i,
    {
        let mut row: Vec<String> = Vec::new();
        row.push(m.proxy[i].key.clone());
        row.push(filtered_text(&m.proxy[i].value));
        rows.push(row);
        i += 1;
    }
    Table { rows }
}

/// Makes the four tables of a metrics answer: the counters of the
/// supervising process if it reported, and the counters, applications and
/// backends across the workers.
pub fn metrics_report(data: &Vec<TaggedMetrics>) -> (res: MetricsReport)
    ensures
        res@ == report_of(snapshots(data@)),
{
    let ghost view = snapshots(data@);
    let ghost mut workers: Seq<Snapshot> = Seq::empty();
    let mut master: Option<usize> = None;
    let mut proxy_header: Vec<String> = Vec::new();
    let mut application_header: Vec<String> = Vec::new();
    let mut backend_header_row: Vec<String> = Vec::new();
    proxy_header.push(String::from_str("key"));
    application_header.push(String::from_str("application"));
    backend_header_row.push(String::from_str("backend"));
    let mut proxy_groups: Vec<Vec<KeyedCells>> = Vec::new();
    let mut application_groups: Vec<Vec<KeyedCells>> = Vec::new();
    let mut backend_groups: Vec<Vec<KeyedCells>> = Vec::new();
    let master_tag = String::from_str("master");
    let mut i: usize = 0;
    while i < data.len()
        invariant
            i <= data.len(),
            view == snapshots(data@),
            master_tag@ == "master"@,
            workers == workers_of(view.take(i as int)),
            match master {
                Some(k) => k < i && master_of(view.take(i as int)) == Some(view[k as int].1),
                None => master_of(view.take(i as int)) is None,
            },
            texts(proxy_header@) == seq!["key"@] + tags_of(workers),
            texts(application_header@) == seq!["application"@] + percentile_header(tags_of(workers)),
            texts(backend_header_row@) == seq!["backend"@] + backend_header(tags_of(workers)),
            blocks_view(proxy_groups@) == proxy_blocks(workers),
            blocks_view(application_groups@) == application_blocks(workers),
            blocks_view(backend_groups@) == backend_blocks(workers),
        decreases data.len() - i,
    {
        let snapshot = &data[i];
        assert(view.take(i + 1).drop_last() =~= view.take(i as int));
        if master.is_none() && snapshot.tag == master_tag {
            master = Some(i);
        } else {
            let ghost grown = workers.push(snapshot@);
            proof {
                assert(tags_of(grown).drop_last() =~= tags_of(workers));
            }
            let ghost before = proxy_header@;
            let tag = snapshot.tag.clone();
            proxy_header.push(tag);
            assert(texts(proxy_header@) =~= texts(before).push(tag@));
            push_percentile_titles(&mut application_header, &snapshot.tag);
            push_backend_titles(&mut backend_header_row, &snapshot.tag);
            let ghost proxy_before = proxy_groups@;
            let ghost application_before = application_groups@;
            let ghost backend_before = backend_groups@;
            let proxy = proxy_cells(&snapshot.metrics);
            let applications = application_cells(&snapshot.metrics);
            let backends = backend_keyed_cells(&snapshot.metrics);
            proxy_groups.push(proxy);
            application_groups.push(applications);
            backend_groups.push(backends);
            assert(blocks_view(proxy_groups@) =~= blocks_view(proxy_before).push(block_view(proxy@)));
            assert(blocks_view(application_groups@) =~= blocks_view(application_before).push(
                block_view(applications@),
            ));
            assert(blocks_view(backend_groups@) =~= blocks_view(backend_before).push(block_view(backends@)));
            proof {
                workers = grown;
            }
        }
        i += 1;
    }
    assert(view.take(data.len() as int) =~= view);
    let master_table = match master {
        Some(k) => Some(master_rows(&data[k].metrics)),
        None => None,
    };
    let mut proxy_rows: Vec<Vec<String>> = Vec::new();
    proxy_rows.push(proxy_header);
    assert(row_texts(proxy_rows@) =~= seq![seq!["key"@] + tags_of(workers)]);
    append_key_rows(&mut proxy_rows, &proxy_groups, 1);
    let mut application_rows: Vec<Vec<String>> = Vec::new();
    application_rows.push(application_header);
    assert(row_texts(application_rows@) =~= seq![seq!["application"@] + percentile_header(tags_of(workers))]);
    append_key_rows(&mut application_rows, &application_groups, 8);
    let mut backend_rows: Vec<Vec<String>> = Vec::new();
    backend_rows.push(backend_header_row);
    assert(row_texts(backend_rows@) =~= seq![seq!["backend"@] + backend_header(tags_of(workers))]);
    append_key_rows(&mut backend_rows, &backend_groups, 10);
    MetricsReport {
        master: master_table,
        proxy: Table { rows: proxy_rows },
        applications: Table { rows: application_rows },
        backends: Table { rows: backend_rows },
    }
}

} // verus!
