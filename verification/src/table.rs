//! Tabular rendering of books: a fixed header row followed by one row per
//! book, laid out by prettytable.
//!
//! A prettytable cell does not keep its text verbatim: `Cell::new` splits it
//! into lines, so a carriage-return-line-feed becomes a line feed and one
//! final line ending is dropped. `cell_content` states that normalization,
//! and every contract about a table's rows speaks of cell contents.

use vstd::prelude::*;

use crate::book::{Book, BookV, books_view};
use crate::digits::{dec_digits, digit_char, u32_to_string};

verus! {

/// A text without line endings; such a text is kept verbatim by a cell.
pub open spec fn line_free(s: Seq<char>) -> bool {
    forall|i: int| 0 <= i < s.len() ==> (#[trigger] s[i]) != '\n' && s[i] != '\r'
}

/// `s` with every carriage-return-line-feed replaced by a line feed; a
/// carriage return on its own is kept.
pub open spec fn strip_crlf(s: Seq<char>) -> Seq<char>
    decreases s.len(),
{
    if s.len() == 0 {
        s
    } else if s.len() >= 2 && s[0] == '\r' && s[1] == '\n' {
        seq!['\n'] + strip_crlf(s.skip(2))
    } else {
        seq![s[0]] + strip_crlf(s.skip(1))
    }
}

/// What a prettytable cell keeps of a text: its lines, as `str::lines` splits
/// them, joined back with a line feed — line-feed line endings with an
/// optional final one, a carriage return counting into the ending before a
/// line feed.
pub open spec fn cell_content(s: Seq<char>) -> Seq<char> {
    let t = strip_crlf(s);
    if t.len() > 0 && t.last() == '\n' {
        t.drop_last()
    } else {
        t
    }
}

proof fn lemma_strip_crlf_plain(s: Seq<char>)
    requires
        line_free(s),
    ensures
        strip_crlf(s) == s,
    decreases s.len(),
{
    if s.len() == 0 {
        assert(strip_crlf(s) =~= s);
    } else {
        assert forall|i: int| 0 <= i < s.skip(1).len() implies (#[trigger] s.skip(1)[i]) != '\n'
            && s.skip(1)[i] != '\r' by {
            assert(s.skip(1)[i] == s[i + 1]);
        }
        lemma_strip_crlf_plain(s.skip(1));
        assert(strip_crlf(s) =~= s);
    }
}

/// A text without line endings is its own cell content.
pub proof fn lemma_cell_content_plain(s: Seq<char>)
    requires
        line_free(s),
    ensures
        cell_content(s) == s,
{
    lemma_strip_crlf_plain(s);
    if s.len() > 0 {
        assert(s[s.len() - 1] != '\n');
    }
}

/// A decimal rendering consists of digits alone, so no line ending occurs in
/// it.
pub proof fn lemma_dec_digits_line_free(n: nat)
    ensures
        line_free(dec_digits(n)),
    decreases n,
{
    if n < 10 {
        assert(digit_char(n) != '\n' && digit_char(n) != '\r');
        assert(line_free(dec_digits(n)));
    } else {
        lemma_dec_digits_line_free(n / 10);
        let prefix = dec_digits(n / 10);
        let whole = dec_digits(n);
        assert forall|i: int| 0 <= i < whole.len() implies (#[trigger] whole[i]) != '\n'
            && whole[i] != '\r' by {
            if i < prefix.len() {
                assert(whole[i] == prefix[i]);
            } else {
                assert(whole[i] == digit_char(n % 10));
            }
        }
    }
}

/// The header row of every table this client prints.
pub open spec fn header_row() -> Seq<Seq<char>> {
    seq!["ID"@, "Title"@, "Author"@, "Description"@]
}

/// The data row for one book: its four fields, stringified, in header order,
/// each kept as a cell keeps it.
pub open spec fn book_row(b: BookV) -> Seq<Seq<char>> {
    seq![
        cell_content(dec_digits(b.id as nat)),
        cell_content(b.title),
        cell_content(b.author),
        cell_content(b.description),
    ]
}

/// The whole grid for a list of books: the header row, then one data row per
/// book, in input order.
pub open spec fn books_grid(bs: Seq<BookV>) -> Seq<Seq<Seq<char>>> {
    seq![header_row()] + bs.map_values(|b: BookV| book_row(b))
}

/// A grid of N books has exactly one header row plus N data rows, in input
/// order.
pub proof fn lemma_grid_shape(bs: Seq<BookV>)
    ensures
        books_grid(bs).len() == 1 + bs.len(),
        books_grid(bs)[0] == header_row(),
        forall|i: int| 0 <= i < bs.len() ==> #[trigger] books_grid(bs)[i + 1] == book_row(bs[i]),
{
}

/// The single-book grid is the header row and that book's one data row.
pub proof fn lemma_single_book_grid(b: BookV)
    ensures
        books_grid(seq![b]) =~= seq![header_row(), book_row(b)],
{
}

/// For fields without line endings the one data row's four cells are exactly
/// the stringified id, title, author and description, in that order.
pub proof fn lemma_single_book_row_plain(b: BookV)
    requires
        line_free(b.title),
        line_free(b.author),
        line_free(b.description),
    ensures
        books_grid(seq![b])[1] == seq![dec_digits(b.id as nat), b.title, b.author, b.description],
{
    lemma_dec_digits_line_free(b.id as nat);
    lemma_cell_content_plain(dec_digits(b.id as nat));
    lemma_cell_content_plain(b.title);
    lemma_cell_content_plain(b.author);
    lemma_cell_content_plain(b.description);
    assert(books_grid(seq![b])[1] == book_row(b));
}

/// The rows a table holds, each cell read as its content: the lines it
/// stores, joined by a line feed.
pub uninterp spec fn table_rows(t: prettytable::Table) -> Seq<Seq<Seq<char>>>;

/// The text prettytable's default format prints for given rows; every table
/// this crate builds starts from `table_new`, so its format is that default,
/// and the text is a function of the rows alone.
pub uninterp spec fn table_text(rows: Seq<Seq<Seq<char>>>) -> Seq<char>;

#[verifier::external_type_specification]
#[verifier::external_body]
pub struct ExTable(prettytable::Table);

/// Relies on prettytable::Table::new: a fresh table, default format, no rows.
#[verifier::external_body]
fn table_new() -> (t: prettytable::Table)
    ensures
        table_rows(t) == Seq::<Seq<Seq<char>>>::empty(),
{
    prettytable::Table::new()
}

/// Relies on prettytable::Table::add_row (with Row::new and Cell::new): the
/// given texts become the table's next row, each kept as `Cell::new` keeps
/// it — split into lines and joined back with a line feed, which is what
/// `cell_content` states; earlier rows are unchanged.
#[verifier::external_body]
fn table_add_row(t: &mut prettytable::Table, c0: &str, c1: &str, c2: &str, c3: &str)
    ensures
        table_rows(*final(t)) == table_rows(*old(t)).push(
            seq![cell_content(c0@), cell_content(c1@), cell_content(c2@), cell_content(c3@)],
        ),
{
    t.add_row(
        prettytable::Row::new(
            vec![
                prettytable::Cell::new(c0),
                prettytable::Cell::new(c1),
                prettytable::Cell::new(c2),
                prettytable::Cell::new(c3),
            ],
        ),
    );
}

/// Relies on prettytable's Display for Table: the printed text is determined
/// by the rows (and the default format every table of this crate keeps).
#[verifier::external_body]
fn table_render(t: &prettytable::Table) -> (r: String)
    ensures
        r@ == table_text(table_rows(*t)),
{
    t.to_string()
}

/// Lays the books out as `books_grid` describes and renders the grid with
/// prettytable.
pub fn render_books(books: &Vec<Book>) -> (r: String)
    ensures
        r@ == table_text(books_grid(books_view(books@))),
{
    let ghost bv = books_view(books@);
    let mut t = table_new();
    table_add_row(&mut t, "ID", "Title", "Author", "Description");
    proof {
        reveal_strlit("ID");
        reveal_strlit("Title");
        reveal_strlit("Author");
        reveal_strlit("Description");
        assert(line_free("ID"@));
        assert(line_free("Title"@));
        assert(line_free("Author"@));
        assert(line_free("Description"@));
        lemma_cell_content_plain("ID"@);
        lemma_cell_content_plain("Title"@);
        lemma_cell_content_plain("Author"@);
        lemma_cell_content_plain("Description"@);
        assert(table_rows(t) =~= books_grid(bv.take(0)));
    }
    let n = books.len();
    for i in 0..n
        invariant
            n == books.len(),
            bv == books_view(books@),
            bv.len() == books.len(),
            forall|j: int| 0 <= j < bv.len() ==> #[trigger] bv[j] == books@[j]@,
            table_rows(t) == books_grid(bv.take(i as int)),
    {
        let id_text = u32_to_string(books[i].id);
        table_add_row(
            &mut t,
            id_text.as_str(),
            books[i].title.as_str(),
            books[i].author.as_str(),
            books[i].description.as_str(),
        );
        proof {
            assert(table_rows(t) =~= books_grid(bv.take(i + 1)));
        }
    }
    proof {
        assert(bv.take(n as int) =~= bv);
    }
    table_render(&t)
}

} // verus!
