//! Tables of text cells, and the reshaping of per-process keyed values into
//! one row per key.

use vstd::prelude::*;
use crate::command::messages::texts;

verus! {

/// A table of text cells. The first row is the header.
#[derive(Debug, Clone, PartialEq, Eq)]
pub struct Table {
    pub rows: Vec<Vec<String>>,
}

/// The cells of a sequence of rows, as texts.
pub open spec fn row_texts(rows: Seq<Vec<String>>) -> Seq<Seq<Seq<char>>> {
    rows.map_values(|r: Vec<String>| texts(r@))
}

impl View for Table {
    type V = Seq<Seq<Seq<char>>>;

    open spec fn view(&self) -> Seq<Seq<Seq<char>>> {
        row_texts(self.rows@)
    }
}

/// The drawing that `prettytable` makes of a table with these cells, in its
/// default format: a frame of `+`, `-` and `|`, a line between the rows, and
/// every column as wide as its widest cell.
pub uninterp spec fn rendered(rows: Seq<Seq<Seq<char>>>) -> Seq<char>;

/// The character that begins a terminal escape sequence.
pub open spec fn escape() -> char {
    '\u{1b}'
}

/// Whether a text can be drawn in a cell: it holds no escape character.
pub open spec fn drawable_text(text: Seq<char>) -> bool {
    forall|i: int| 0 <= i < text.len() ==> text[i] != escape()
}

/// Whether every cell of the rows can be drawn.
pub open spec fn drawable(rows: Seq<Seq<Seq<char>>>) -> bool {
    forall|r: int, c: int|
        0 <= r < rows.len() && 0 <= c < rows[r].len() ==> drawable_text(#[trigger] rows[r][c])
}

/// Draws rows of cells with `prettytable`: a `Table::new`, to which every
/// row is added by `Table::add_row` as a `Row::new` of one `Cell::new` per
/// cell, is written out by its `Display`. The drawing is made from the
/// cells alone: no terminal, locale or environment enters it, and with the
/// crate's `win_crlf` feature off every line ends in a line feed on every
/// platform. `Cell::new` measures its text and panics where it counts more
/// characters inside an escape sequence than the text is wide; without an
/// escape character it counts none, so no cell may hold one. Writing into
/// a string cannot fail, so `to_string` returns.
#[verifier::external_body]
fn draw(rows: &Vec<Vec<String>>) -> (text: String)
    requires
        drawable(row_texts(rows@)),
    ensures
        text@ == rendered(row_texts(rows@)),
{
    let mut table = prettytable::Table::new();
    for row in rows.iter() {
        table.add_row(prettytable::Row::new(row.iter().map(|c| prettytable::Cell::new(c)).collect()));
    }
    table.to_string()
}

/// Whether a text holds no escape character.
pub fn text_is_drawable(text: &String) -> (res: bool)
    ensures
        res == drawable_text(text@),
{
    let s = text.as_str();
    let n = s.unicode_len();
    let mut i: usize = 0;
    while i < n
        invariant
            i <= n,
            n == s@.len(),
            s@ == text@,
            forall|k: int| 0 <= k < i ==> text@[k] != escape(),
        decreases n - i,
    {
        if s.get_char(i) == '\u{1b}' {
            return false;
        }
        i += 1;
    }
    true
}

impl Table {
    /// Whether every cell of the table can be drawn.
    pub fn is_drawable(&self) -> (res: bool)
        ensures
            res == drawable(self@),
    {
        let mut r: usize = 0;
        while r < self.rows.len()
            invariant
                r <= self.rows.len(),
                forall|a: int, c: int|
                    0 <= a < r && 0 <= c < self@[a].len() ==> drawable_text(#[trigger] self@[a][c]),
            decreases self.rows.len() - r,
        {
            let row = &self.rows[r];
            let mut c: usize = 0;
            while c < row.len()
                invariant
                    c <= row.len(),
                    r < self.rows.len(),
                    row == &self.rows[r as int],
                    forall|b: int| 0 <= b < c ==> drawable_text(#[trigger] self@[r as int][b]),
                decreases row.len() - c,
            {
                if !text_is_drawable(&row[c]) {
                    assert(self@[r as int][c as int] == row[c as int]@);
                    return false;
                }
                assert(self@[r as int][c as int] == row[c as int]@);
                c += 1;
            }
            r += 1;
        }
        true
    }

    /// The drawing of the table, ready to be printed.
    pub fn render(&self) -> (text: String)
        requires
            drawable(self@),
        ensures
            text@ == rendered(self@),
    {
        draw(&self.rows)
    }

    /// The drawing of the table, if every cell can be drawn.
    pub fn try_render(&self) -> (res: Option<String>)
        ensures
            drawable(self@) ==> res is Some && res->0@ == rendered(self@),
            !drawable(self@) ==> res is None,
    {
        if self.is_drawable() {
            Some(self.render())
        } else {
            None
        }
    }
}

/// The cells that one process contributes under one key.
#[derive(Debug, Clone, PartialEq, Eq)]
pub struct KeyedCells {
    pub key: String,
    pub cells: Vec<String>,
}

impl View for KeyedCells {
    type V = (Seq<char>, Seq<Seq<char>>);

    open spec fn view(&self) -> (Seq<char>, Seq<Seq<char>>) {
        (self.key@, texts(self.cells@))
    }
}

/// What one process contributes: keyed groups of cells, in its own order.
pub type Block = Seq<(Seq<char>, Seq<Seq<char>>)>;

/// The keyed groups of one process, as values.
pub open spec fn block_view(block: Seq<KeyedCells>) -> Block {
    block.map_values(|k: KeyedCells| k@)
}

/// The keyed groups of the processes, as values.
pub open spec fn blocks_view(blocks: Seq<Vec<KeyedCells>>) -> Seq<Block> {
    blocks.map_values(|b: Vec<KeyedCells>| block_view(b@))
}

/// `seen`, followed by the keys of `block` that are not yet in it, each
/// once, in the order of their first occurrence.
pub open spec fn keys_after(block: Block, seen: Seq<Seq<char>>) -> Seq<Seq<char>>
    decreases block.len(),
{
    if block.len() == 0 {
        seen
    } else {
        let before = keys_after(block.drop_last(), seen);
        if before.contains(block.last().0) {
            before
        } else {
            before.push(block.last().0)
        }
    }
}

/// The keys of all blocks, each once, in the order of first occurrence.
pub open spec fn all_keys(blocks: Seq<Block>) -> Seq<Seq<char>>
    decreases blocks.len(),
{
    if blocks.len() == 0 {
        Seq::empty()
    } else {
        keys_after(blocks.last(), all_keys(blocks.drop_last()))
    }
}

/// The cells of the first group of `block` under `key`, if there is one.
pub open spec fn first_group(block: Block, key: Seq<char>) -> Option<Seq<Seq<char>>>
    decreases block.len(),
{
    if block.len() == 0 {
        None
    } else if block.first().0 == key {
        Some(block.first().1)
    } else {
        first_group(block.drop_first(), key)
    }
}

/// Exactly `width` cells: those of the group as far as they go, and empty
/// cells for what is missing.
pub open spec fn fitted(group: Option<Seq<Seq<char>>>, width: nat) -> Seq<Seq<char>> {
    Seq::new(
        width,
        |c: int|
            match group {
                Some(cells) => if c < cells.len() {
                    cells[c]
                } else {
                    Seq::empty()
                },
                None => Seq::empty(),
            },
    )
}

/// The `width` cells that `block` has under `key`: those of its group, or
/// empty cells where it has none.
pub open spec fn block_cells(block: Block, key: Seq<char>, width: nat) -> Seq<Seq<char>> {
    fitted(first_group(block, key), width)
}

/// The cells under `key` of all blocks, `width` per block, block after
/// block.
pub open spec fn key_cells(blocks: Seq<Block>, key: Seq<char>, width: nat) -> Seq<Seq<char>>
    decreases blocks.len(),
{
    if blocks.len() == 0 {
        Seq::empty()
    } else {
        key_cells(blocks.drop_last(), key, width) + block_cells(blocks.last(), key, width)
    }
}

/// The row of a key: the key, then its cells.
pub open spec fn key_row(blocks: Seq<Block>, key: Seq<char>, width: nat) -> Seq<Seq<char>> {
    seq![key] + key_cells(blocks, key, width)
}

/// One row per key, in the order of the keys' first occurrence.
pub open spec fn key_rows(blocks: Seq<Block>, width: nat) -> Seq<Seq<Seq<char>>> {
    all_keys(blocks).map_values(|key: Seq<char>| key_row(blocks, key, width))
}

/// Whether `list` holds a string of the given text.
pub fn has_text(list: &Vec<String>, text: &String) -> (res: bool)
    ensures
        res == texts(list@).contains(text@),
{
    let mut i: usize = 0;
    while i < list.len()
        invariant
            i <= list.len(),
            forall|k: int| 0 <= k < i ==> texts(list@)[k] != text@,
        decreases list.len() - i,
    {
        if list[i] == *text {
            assert(texts(list@)[i as int] == text@);
            return true;
        }
        i += 1;
    }
    false
}

/// Appends copies of the strings of `more` to `cells`.
pub fn append_copies(cells: &mut Vec<String>, more: &Vec<String>)
    ensures
        texts(final(cells)@) == texts(old(cells)@) + texts(more@),
{
    let mut i: usize = 0;
    while i < more.len()
        invariant
            i <= more.len(),
            texts(cells@) == texts(old(cells)@) + texts(more@).take(i as int),
        decreases more.len() - i,
    {
        let ghost before = cells@;
        let copy = more[i].clone();
        cells.push(copy);
        assert(texts(cells@) =~= texts(before).push(copy@));
        i += 1;
    }
}

/// The keys of the blocks, each once, in the order of first occurrence.
pub fn collect_keys(blocks: &Vec<Vec<KeyedCells>>) -> (keys: Vec<String>)
    ensures
        texts(keys@) == all_keys(blocks_view(blocks@)),
{
    let ghost view = blocks_view(blocks@);
    let mut keys: Vec<String> = Vec::new();
    let mut i: usize = 0;
    while i < blocks.len()
        invariant
            i <= blocks.len(),
            view == blocks_view(blocks@),
            texts(keys@) == all_keys(view.take(i as int)),
        decreases blocks.len() - i,
    {
        let block = &blocks[i];
        let ghost seen = texts(keys@);
        let ghost entries = view[i as int];
        let mut j: usize = 0;
        while j < block.len()
            invariant
                j <= block.len(),
                entries == block_view(block@),
                texts(keys@) == keys_after(entries.take(j as int), seen),
            decreases block.len() - j,
        {
            assert(entries.take(j + 1).drop_last() =~= entries.take(j as int));
            if !has_text(&keys, &block[j].key) {
                keys.push(block[j].key.clone());
            }
            j += 1;
        }
        assert(entries.take(block.len() as int) =~= entries);
        assert(view.take(i + 1).drop_last() =~= view.take(i as int));
        i += 1;
    }
    assert(view.take(blocks.len() as int) =~= view);
    keys
}

/// The place of the first group of `block` under `key`, or the length of
/// the block where there is none.
fn find_group(block: &Vec<KeyedCells>, key: &String) -> (at: usize)
    ensures
        at <= block.len(),
        at < block.len() ==> first_group(block_view(block@), key@) == Some(texts(block@[at as int].cells@)),
        at == block.len() ==> first_group(block_view(block@), key@) is None,
{
    let ghost view = block_view(block@);
    let mut i: usize = 0;
    assert(view.skip(0) =~= view);
    while i < block.len()
        invariant
            i <= block.len(),
            view == block_view(block@),
            first_group(view, key@) == first_group(view.skip(i as int), key@),
        decreases block.len() - i,
    {
        assert(view.skip(i as int).first() == view[i as int]);
        assert(view.skip(i as int).drop_first() =~= view.skip(i + 1));
        if block[i].key == *key {
            return i;
        }
        i += 1;
    }
    i
}

/// Appends to `row` the `width` cells that `block` has under `key`.
pub fn append_block_cells(row: &mut Vec<String>, block: &Vec<KeyedCells>, key: &String, width: usize)
    ensures
        texts(final(row)@) == texts(old(row)@) + block_cells(block_view(block@), key@, width as nat),
{
    let at = find_group(block, key);
    let ghost group = first_group(block_view(block@), key@);
    let ghost cells = block_cells(block_view(block@), key@, width as nat);
    let mut c: usize = 0;
    while c < width
        invariant
            c <= width,
            at <= block.len(),
            at < block.len() ==> group == Some(texts(block@[at as int].cells@)),
            at == block.len() ==> group is None,
            cells == fitted(group, width as nat),
            texts(row@) == texts(old(row)@) + cells.take(c as int),
        decreases width - c,
    {
        let ghost before = row@;
        let cell = if at < block.len() && c < block[at].cells.len() {
            block[at].cells[c].clone()
        } else {
            String::new()
        };
        row.push(cell);
        assert(cell@ == cells[c as int]);
        assert(texts(row@) =~= texts(before).push(cell@));
        assert(cells.take(c + 1) =~= cells.take(c as int).push(cells[c as int]));
        c += 1;
    }
    assert(cells.take(width as int) =~= cells);
}

/// The row of `key`: a copy of the key, then `width` cells from every
/// block, empty where the block has nothing under the key.
pub fn collect_row(blocks: &Vec<Vec<KeyedCells>>, key: &String, width: usize) -> (row: Vec<String>)
    ensures
        texts(row@) == key_row(blocks_view(blocks@), key@, width as nat),
{
    let ghost view = blocks_view(blocks@);
    let mut row: Vec<String> = Vec::new();
    row.push(key.clone());
    assert(texts(row@) =~= seq![key@]);
    let mut i: usize = 0;
    assert(view.take(0) =~= Seq::<Block>::empty());
    while i < blocks.len()
        invariant
            i <= blocks.len(),
            view == blocks_view(blocks@),
            texts(row@) == seq![key@] + key_cells(view.take(i as int), key@, width as nat),
        decreases blocks.len() - i,
    {
        assert(view.take(i + 1).drop_last() =~= view.take(i as int));
        assert(view.take(i + 1).last() == block_view(blocks@[i as int]@));
        append_block_cells(&mut row, &blocks[i], key, width);
        assert(texts(row@) =~= seq![key@] + key_cells(view.take(i + 1), key@, width as nat));
        i += 1;
    }
    assert(view.take(blocks.len() as int) =~= view);
    row
}

/// Appends to `rows` one row per key of the blocks, in the order of the
/// keys' first occurrence, with `width` cells for every block.
pub fn append_key_rows(rows: &mut Vec<Vec<String>>, blocks: &Vec<Vec<KeyedCells>>, width: usize)
    ensures
        row_texts(final(rows)@) == row_texts(old(rows)@) + key_rows(blocks_view(blocks@), width as nat),
{
    let ghost view = blocks_view(blocks@);
    let ghost wanted = key_rows(view, width as nat);
    let keys = collect_keys(blocks);
    let mut i: usize = 0;
    while i < keys.len()
        invariant
            i <= keys.len(),
            view == blocks_view(blocks@),
            wanted == key_rows(view, width as nat),
            texts(keys@) == all_keys(view),
            row_texts(rows@) == row_texts(old(rows)@) + wanted.take(i as int),
        decreases keys.len() - i,
    {
        let row = collect_row(blocks, &keys[i], width);
        let ghost before = rows@;
        assert(texts(keys@)[i as int] == keys[i as int]@);
        rows.push(row);
        assert(row_texts(rows@) =~= row_texts(before).push(texts(row@)));
        assert(wanted.take(i + 1) =~= wanted.take(i as int).push(texts(row@)));
        i += 1;
    }
    assert(wanted.take(keys.len() as int) =~= wanted);
}

/// Whether some group of `block` stands under `key`.
pub open spec fn block_has_key(block: Block, key: Seq<char>) -> bool {
    exists|i: int| 0 <= i < block.len() && (#[trigger] block[i]).0 == key
}

/// Whether some group of some block stands under `key`.
pub open spec fn blocks_have_key(blocks: Seq<Block>, key: Seq<char>) -> bool {
    exists|b: int| 0 <= b < blocks.len() && block_has_key(#[trigger] blocks[b], key)
}

proof fn lemma_keys_after(block: Block, seen: Seq<Seq<char>>)
    requires
        seen.no_duplicates(),
    ensures
        keys_after(block, seen).no_duplicates(),
        forall|key: Seq<char>|
            keys_after(block, seen).contains(key) <==> (seen.contains(key) || block_has_key(block, key)),
    decreases block.len(),
{
    if block.len() > 0 {
        let shorter = block.drop_last();
        let before = keys_after(shorter, seen);
        let after = keys_after(block, seen);
        let added = block.last().0;
        lemma_keys_after(shorter, seen);
        assert forall|key: Seq<char>| after.contains(key) <==> (seen.contains(key) || block_has_key(
            block,
            key,
        )) by {
            if block_has_key(shorter, key) {
                let i = choose|i: int| 0 <= i < shorter.len() && (#[trigger] shorter[i]).0 == key;
                assert(block[i].0 == key);
            }
            if block_has_key(block, key) {
                let i = choose|i: int| 0 <= i < block.len() && (#[trigger] block[i]).0 == key;
                if i < shorter.len() {
                    assert(shorter[i].0 == key);
                }
            }
            if key == added {
                assert(block[block.len() - 1].0 == key);
            }
            if before.contains(added) {
                assert(after == before);
            } else {
                assert(after == before.push(added));
                assert(after[before.len() as int] == added);
                if before.contains(key) {
                    let i = choose|i: int| 0 <= i < before.len() && before[i] == key;
                    assert(after[i] == key);
                }
                if after.contains(key) {
                    let i = choose|i: int| 0 <= i < after.len() && after[i] == key;
                    if i < before.len() {
                        assert(before[i] == key);
                    }
                }
            }
        }
    }
}

/// The rows of a reshaped table stand under distinct keys: there is one row
/// per key.
pub proof fn lemma_keys_distinct(blocks: Seq<Block>)
    ensures
        all_keys(blocks).no_duplicates(),
    decreases blocks.len(),
{
    if blocks.len() > 0 {
        lemma_keys_distinct(blocks.drop_last());
        lemma_keys_after(blocks.last(), all_keys(blocks.drop_last()));
    }
}

/// A key has a row exactly if some process reports under it.
pub proof fn lemma_keys_complete(blocks: Seq<Block>, key: Seq<char>)
    ensures
        all_keys(blocks).contains(key) <==> blocks_have_key(blocks, key),
    decreases blocks.len(),
{
    if blocks.len() > 0 {
        let shorter = blocks.drop_last();
        lemma_keys_distinct(shorter);
        lemma_keys_complete(shorter, key);
        lemma_keys_after(blocks.last(), all_keys(shorter));
        if blocks_have_key(shorter, key) {
            let b = choose|b: int| 0 <= b < shorter.len() && block_has_key(#[trigger] shorter[b], key);
            assert(block_has_key(blocks[b], key));
        }
        if block_has_key(blocks.last(), key) {
            assert(block_has_key(blocks[blocks.len() - 1], key));
        }
        if blocks_have_key(blocks, key) {
            let b = choose|b: int| 0 <= b < blocks.len() && block_has_key(#[trigger] blocks[b], key);
            if b < shorter.len() {
                assert(block_has_key(shorter[b], key));
            }
        }
    }
}

/// Every row has the key and then `width` cells for every process, and the
/// cells of the process at `position` stand in the columns from
/// `width * position` on: those of its group under the key, or empty cells
/// where it has none. So no process's cells ever stand in the columns of
/// another.
pub proof fn lemma_columns_of_process(blocks: Seq<Block>, key: Seq<char>, width: nat, position: int)
    requires
        0 <= position < blocks.len(),
    ensures
        key_cells(blocks, key, width).len() == width * blocks.len(),
        key_row(blocks, key, width).len() == 1 + width * blocks.len(),
        width * position + width <= key_cells(blocks, key, width).len(),
        key_cells(blocks, key, width).subrange(width * position, width * position + width) == block_cells(
            blocks[position],
            key,
            width,
        ),
    decreases blocks.len(),
{
    let shorter = blocks.drop_last();
    let n = shorter.len();
    lemma_cells_width(shorter, key, width);
    assert(width * (n + 1) == width * n + width) by (nonlinear_arith);
    if position == n {
        assert(key_cells(blocks, key, width).subrange(width * position, width * position + width)
            =~= block_cells(blocks[position], key, width));
    } else {
        assert(shorter[position] == blocks[position]);
        lemma_columns_of_process(shorter, key, width, position);
        assert(width * position + width <= width * n) by (nonlinear_arith)
            requires
                position + 1 <= n,
        ;
        assert(key_cells(blocks, key, width).subrange(width * position, width * position + width)
            =~= key_cells(shorter, key, width).subrange(width * position, width * position + width));
    }
}

/// The cells of a key are `width` for every process.
pub proof fn lemma_cells_width(blocks: Seq<Block>, key: Seq<char>, width: nat)
    ensures
        key_cells(blocks, key, width).len() == width * blocks.len(),
    decreases blocks.len(),
{
    if blocks.len() > 0 {
        let shorter = blocks.drop_last();
        lemma_cells_width(shorter, key, width);
        assert(width * (shorter.len() + 1) == width * shorter.len() + width) by (nonlinear_arith);
    } else {
        assert(width * 0 == 0) by (nonlinear_arith);
    }
}

} // verus!
