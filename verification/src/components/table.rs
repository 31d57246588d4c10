//! The Table UI element: a leaf widget holding tabular string data, a header
//! row, and a pagination cursor.

use vstd::prelude::*;
use vstd::slice::slice_index_get;

use crate::components::{Size, UIElement};

verus! {

/// A failure reported by a table constructor.
#[derive(Clone, Copy, PartialEq, Eq, Structural, Debug)]
pub enum TableError {
    /// A data row's length differs from the header row's length.
    RowLengthMismatch,
}

/// The rows of `data` that page `page` shows when every page holds `per`
/// rows: rows `page * per` up to `(page + 1) * per`, cut at the end of the
/// data. An out-of-range page, or a page size of zero, shows no rows.
pub open spec fn page_rows(data: Seq<Seq<Seq<char>>>, page: int, per: int) -> Seq<Seq<Seq<char>>> {
    if per <= 0 || page * per >= data.len() {
        Seq::empty()
    } else {
        let start = page * per;
        let end = if (page + 1) * per <= data.len() {
            (page + 1) * per
        } else {
            data.len() as int
        };
        data.subrange(start, end)
    }
}

/// This trait aims to make the Table struct replaceable by any struct which
/// implements it. A table is also a UI element.
pub trait TableTrait: UIElement {
    /// The header row, in specifications.
    spec fn spec_headers(&self) -> Seq<Seq<char>>;

    /// The data rows, in specifications.
    spec fn spec_data(&self) -> Seq<Seq<Seq<char>>>;

    /// The current page, in specifications.
    spec fn spec_current_page(&self) -> u32;

    /// The number of rows shown by page, in specifications.
    spec fn spec_items_by_page(&self) -> u32;

    /// Creates a new instance.
    ///
    /// Every data row must have the same length as the header row; a table
    /// with a mismatched row is never constructed, and the mismatch is
    /// reported to the caller.
    fn new(headers: &[String], data: Vec<Vec<String>>) -> (r: Result<Self, TableError>)
        ensures
            (r is Ok) <==> (forall|i: int|
                0 <= i < data@.len() ==> (#[trigger] data@[i])@.len() == headers@.len()),
            r matches Err(e) ==> e == TableError::RowLengthMismatch,
            r matches Ok(t) ==> t.spec_headers() == headers.deep_view()
                && t.spec_data() == data.deep_view() && t.spec_current_page() == 0
                && t.spec_items_by_page() == 20 && t.spec_z_index() == 0 && t.spec_title()
                == Seq::<char>::empty() && t.spec_width() is Auto && t.spec_height() is Auto
                && t.spec_updated() && t.spec_border_vertical() == ' '
                && t.spec_border_horizontal() == ' ' && t.spec_border_intersect() == ' '
                && t.spec_padding_vertical() == 1 && t.spec_padding_horizontal() == 1,
    ;

    /// Returns the line of headers.
    fn headers(&self) -> (r: Vec<String>)
        ensures
            r.deep_view() == self.spec_headers(),
    ;

    /// Returns the lines of data.
    fn data(&self) -> (r: &Vec<Vec<String>>)
        ensures
            r.deep_view() == self.spec_data(),
    ;

    /// Returns the current page of the table.
    fn current_page(&self) -> (r: u32)
        ensures
            r == self.spec_current_page(),
    ;

    /// Sets the current page of the table.
    ///
    /// No upper bound is enforced: an out-of-range page shows no rows rather
    /// than failing.
    fn set_current_page(&mut self, current_page: u32)
        ensures
            final(self).spec_current_page() == current_page,
            final(self).spec_updated(),
            final(self).spec_items_by_page() == old(self).spec_items_by_page(),
            final(self).spec_headers() == old(self).spec_headers(),
            final(self).spec_data() == old(self).spec_data(),
            final(self).spec_z_index() == old(self).spec_z_index(),
            final(self).spec_title() == old(self).spec_title(),
            final(self).spec_width() == old(self).spec_width(),
            final(self).spec_height() == old(self).spec_height(),
            final(self).spec_border_vertical() == old(self).spec_border_vertical(),
            final(self).spec_border_horizontal() == old(self).spec_border_horizontal(),
            final(self).spec_border_intersect() == old(self).spec_border_intersect(),
            final(self).spec_padding_vertical() == old(self).spec_padding_vertical(),
            final(self).spec_padding_horizontal() == old(self).spec_padding_horizontal(),
    ;

    /// Returns the number of items displayed by page.
    fn items_by_page(&self) -> (r: u32)
        ensures
            r == self.spec_items_by_page(),
    ;

    /// Sets the number of items displayed by page.
    ///
    /// Zero is accepted: such a table shows no rows on any page.
    fn set_items_by_page(&mut self, items_by_page: u32)
        ensures
            final(self).spec_items_by_page() == items_by_page,
            final(self).spec_updated(),
            final(self).spec_current_page() == old(self).spec_current_page(),
            final(self).spec_headers() == old(self).spec_headers(),
            final(self).spec_data() == old(self).spec_data(),
            final(self).spec_z_index() == old(self).spec_z_index(),
            final(self).spec_title() == old(self).spec_title(),
            final(self).spec_width() == old(self).spec_width(),
            final(self).spec_height() == old(self).spec_height(),
            final(self).spec_border_vertical() == old(self).spec_border_vertical(),
            final(self).spec_border_horizontal() == old(self).spec_border_horizontal(),
            final(self).spec_border_intersect() == old(self).spec_border_intersect(),
            final(self).spec_padding_vertical() == old(self).spec_padding_vertical(),
            final(self).spec_padding_horizontal() == old(self).spec_padding_horizontal(),
    ;

    /// Returns the rows shown on the current page: rows
    /// `current_page * items_by_page` up to the page's end, cut at the end
    /// of the data. An out-of-range page yields no rows, not an error.
    fn visible_rows(&self) -> (r: Vec<Vec<String>>)
        ensures
            r.deep_view() == page_rows(
                self.spec_data(),
                self.spec_current_page() as int,
                self.spec_items_by_page() as int,
            ),
    ;
}

/// Represents the UI element Table.
pub struct Table {
    /// The z index.
    pub z_index: u8,
    /// The line of headers.
    pub headers: Vec<String>,
    /// The lines & columns contained in the table.
    /// Doesn't include the headers.
    pub data: Vec<Vec<String>>,
    /// The character to display in vertical border.
    /// Example: |
    pub border_vertical: char,
    /// The character to display in horizontal border.
    /// Example: -
    pub border_horizontal: char,
    /// The character to display in border intersection.
    /// Example: +
    pub border_intersect: char,
    /// The vertical space between the border and the text inside the table.
    pub padding_vertical: u8,
    /// The horizontal space between the border and the text inside the table.
    pub padding_horizontal: u8,
    /// The title of the table.
    pub title: String,
    /// The width of the table.
    pub width: Size,
    /// The height of the table.
    pub height: Size,
    /// Whether the table has been updated.
    pub updated: bool,
    /// The current page in the table.
    pub current_page: u32,
    /// The number of items displayed by page.
    pub items_by_page: u32,
}

/// Clones a vector of strings, element by element.
fn clone_strings(v: &Vec<String>) -> (r: Vec<String>)
    ensures
        r@ == v@,
{
    let mut r: Vec<String> = Vec::new();
    let mut i: usize = 0;
    while i < v.len()
        invariant
            i <= v@.len(),
            r@.len() == i,
            forall|j: int| 0 <= j < i ==> r@[j] == v@[j],
        decreases v@.len() - i,
    {
        r.push(v[i].clone());
        i += 1;
    }
    proof {
        assert(r@ =~= v@);
    }
    r
}

/// Checks that every row of `data` is as long as `headers`.
fn rows_match_headers(headers: &[String], data: &Vec<Vec<String>>) -> (r: bool)
    ensures
        r <==> (forall|i: int|
            0 <= i < data@.len() ==> (#[trigger] data@[i])@.len() == headers@.len()),
{
    let mut i: usize = 0;
    while i < data.len()
        invariant
            i <= data@.len(),
            forall|j: int| 0 <= j < i ==> (#[trigger] data@[j])@.len() == headers@.len(),
        decreases data@.len() - i,
    {
        if data[i].len() != headers.len() {
            return false;
        }
        i += 1;
    }
    true
}

impl Table {
    /// Creates a table whose border is drawn with `|`, `-` and `+` instead
    /// of blanks; everything else is as `Table::new` leaves it.
    pub fn new_bordered(headers: &[String], data: Vec<Vec<String>>) -> (r: Result<
        Table,
        TableError,
    >)
        ensures
            (r is Ok) <==> (forall|i: int|
                0 <= i < data@.len() ==> (#[trigger] data@[i])@.len() == headers@.len()),
            r matches Err(e) ==> e == TableError::RowLengthMismatch,
            r matches Ok(t) ==> t.spec_headers() == headers.deep_view()
                && t.spec_data() == data.deep_view() && t.spec_current_page() == 0
                && t.spec_items_by_page() == 20 && t.spec_z_index() == 0 && t.spec_title()
                == Seq::<char>::empty() && t.spec_width() is Auto && t.spec_height() is Auto
                && t.spec_updated() && t.spec_border_vertical() == '|'
                && t.spec_border_horizontal() == '-' && t.spec_border_intersect() == '+'
                && t.spec_padding_vertical() == 1 && t.spec_padding_horizontal() == 1,
    {
        match Table::new(headers, data) {
            Ok(mut t) => {
                t.border_vertical = '|';
                t.border_horizontal = '-';
                t.border_intersect = '+';
                Ok(t)
            },
            Err(e) => Err(e),
        }
    }
}

impl TableTrait for Table {
    open spec fn spec_headers(&self) -> Seq<Seq<char>> {
        self.headers.deep_view()
    }

    open spec fn spec_data(&self) -> Seq<Seq<Seq<char>>> {
        self.data.deep_view()
    }

    open spec fn spec_current_page(&self) -> u32 {
        self.current_page
    }

    open spec fn spec_items_by_page(&self) -> u32 {
        self.items_by_page
    }

    /// Create a new Table.
    fn new(headers: &[String], data: Vec<Vec<String>>) -> (r: Result<Table, TableError>) {
        if !rows_match_headers(headers, &data) {
            return Err(TableError::RowLengthMismatch);
        }
        let mut hs: Vec<String> = Vec::new();
        let mut i: usize = 0;
        while i < headers.len()
            invariant
                i <= headers@.len(),
                hs@.len() == i,
                forall|j: int| 0 <= j < i ==> hs@[j] == headers@[j],
            decreases headers@.len() - i,
        {
            hs.push(slice_index_get(headers, i).clone());
            i += 1;
        }
        proof {
            assert(hs@ =~= headers@);
            assert(hs.deep_view() =~= headers.deep_view());
        }
        Ok(
            Table {
                z_index: 0,
                headers: hs,
                data,
                border_vertical: ' ',
                border_horizontal: ' ',
                border_intersect: ' ',
                padding_vertical: 1,
                padding_horizontal: 1,
                title: String::new(),
                width: Size::Auto,
                height: Size::Auto,
                updated: true,
                current_page: 0,
                items_by_page: 20,
            },
        )
    }

    /// Returns the line of headers.
    fn headers(&self) -> (r: Vec<String>) {
        let r = clone_strings(&self.headers);
        proof {
            assert(r.deep_view() =~= self.headers.deep_view());
        }
        r
    }

    /// Returns the lines of data.
    fn data(&self) -> (r: &Vec<Vec<String>>) {
        &self.data
    }

    /// Returns the current page of the table.
    fn current_page(&self) -> (r: u32) {
        self.current_page
    }

    /// Sets the current page of the table.
    fn set_current_page(&mut self, current_page: u32) {
        self.current_page = current_page;
        self.updated = true;
    }

    /// Returns the number of items displayed by page.
    fn items_by_page(&self) -> (r: u32) {
        self.items_by_page
    }

    /// Sets the number of items displayed by page.
    fn set_items_by_page(&mut self, items_by_page: u32) {
        self.items_by_page = items_by_page;
        self.updated = true;
    }

    /// Returns the rows of the current page.
    fn visible_rows(&self) -> (r: Vec<Vec<String>>) {
        let mut out: Vec<Vec<String>> = Vec::new();
        let len = self.data.len();
        let per64 = self.items_by_page as u64;
        proof {
            assert((self.current_page as u64) * per64 <= u64::MAX) by (nonlinear_arith)
                requires
                    self.current_page as u64 <= u32::MAX,
                    per64 <= u32::MAX,
            ;
        }
        let start64 = (self.current_page as u64) * per64;
        if per64 == 0 || start64 >= len as u64 {
            proof {
                assert(page_rows(
                    self.spec_data(),
                    self.spec_current_page() as int,
                    self.spec_items_by_page() as int,
                ) =~= out.deep_view());
            }
            return out;
        }
        let start = start64 as usize;
        let end = if per64 >= (len - start) as u64 {
            len
        } else {
            start + (per64 as usize)
        };
        let mut i: usize = start;
        while i < end
            invariant
                start <= i <= end <= self.data@.len(),
                out@.len() == i - start,
                forall|k: int| 0 <= k < i - start ==> (#[trigger] out@[k])@ == self.data@[
                    start + k
                ]@,
            decreases end - i,
        {
            out.push(clone_strings(&self.data[i]));
            i += 1;
        }
        proof {
            let page = self.current_page as int;
            let per = self.items_by_page as int;
            let d = self.spec_data();
            assert(d.len() == self.data@.len());
            assert(start as int == page * per);
            assert(page * per < d.len());
            assert((page + 1) * per == page * per + per) by (nonlinear_arith);
            let e = if (page + 1) * per <= d.len() {
                (page + 1) * per
            } else {
                d.len() as int
            };
            assert(end as int == e);
            let rows = page_rows(d, page, per);
            assert(rows == d.subrange(start as int, e));
            assert(out@.len() == rows.len());
            assert forall|k: int| 0 <= k < out@.len() implies out.deep_view()[k] == rows[k] by {
                assert(out.deep_view()[k] == out@[k].deep_view());
                assert(rows[k] == d[start + k]);
                assert(d[start + k] == self.data@[start + k].deep_view());
                assert(out@[k].deep_view() =~= self.data@[start + k].deep_view());
            }
            assert(out.deep_view() =~= rows);
        }
        out
    }
}

impl UIElement for Table {
    open spec fn spec_z_index(&self) -> u8 {
        self.z_index
    }

    open spec fn spec_title(&self) -> Seq<char> {
        self.title@
    }

    open spec fn spec_width(&self) -> Size {
        self.width
    }

    open spec fn spec_height(&self) -> Size {
        self.height
    }

    open spec fn spec_updated(&self) -> bool {
        self.updated
    }

    open spec fn spec_border_vertical(&self) -> char {
        self.border_vertical
    }

    open spec fn spec_border_horizontal(&self) -> char {
        self.border_horizontal
    }

    open spec fn spec_border_intersect(&self) -> char {
        self.border_intersect
    }

    open spec fn spec_padding_vertical(&self) -> u8 {
        self.padding_vertical
    }

    open spec fn spec_padding_horizontal(&self) -> u8 {
        self.padding_horizontal
    }

    /// Returns the z index.
    fn z_index(&self) -> (r: u8) {
        self.z_index
    }

    /// Sets the z index. The table's rows, headers and pagination are
    /// untouched.
    fn set_z_index(&mut self, z_index: u8)
        ensures
            final(self).headers == old(self).headers,
            final(self).data == old(self).data,
            final(self).current_page == old(self).current_page,
            final(self).items_by_page == old(self).items_by_page,
    {
        self.z_index = z_index;
        self.updated = true;
    }

    /// Returns the title of the table.
    fn title(&self) -> (r: &str) {
        self.title.as_str()
    }

    /// Sets the title. The table's rows, headers and pagination are
    /// untouched.
    fn set_title(&mut self, title: &str)
        ensures
            final(self).headers == old(self).headers,
            final(self).data == old(self).data,
            final(self).current_page == old(self).current_page,
            final(self).items_by_page == old(self).items_by_page,
    {
        self.title = title.to_string();
        self.updated = true;
    }

    /// Returns the width of the table.
    fn width(&self) -> (r: Size) {
        self.width
    }

    /// Sets the width. The table's rows, headers and pagination are
    /// untouched.
    fn set_width(&mut self, width: Size)
        ensures
            final(self).headers == old(self).headers,
            final(self).data == old(self).data,
            final(self).current_page == old(self).current_page,
            final(self).items_by_page == old(self).items_by_page,
    {
        self.width = width;
        self.updated = true;
    }

    /// Returns the height of the table.
    fn height(&self) -> (r: Size) {
        self.height
    }

    /// Sets the height. The table's rows, headers and pagination are
    /// untouched.
    fn set_height(&mut self, height: Size)
        ensures
            final(self).headers == old(self).headers,
            final(self).data == old(self).data,
            final(self).current_page == old(self).current_page,
            final(self).items_by_page == old(self).items_by_page,
    {
        self.height = height;
        self.updated = true;
    }

    /// Returns whether the table has been updated and needs to be redrawn.
    fn updated(&self) -> (r: bool) {
        self.updated
    }

    /// Changes the state of the element. Nothing else changes: the table's
    /// rows, headers and pagination are untouched.
    fn set_updated(&mut self, updated: bool)
        ensures
            final(self).headers == old(self).headers,
            final(self).data == old(self).data,
            final(self).current_page == old(self).current_page,
            final(self).items_by_page == old(self).items_by_page,
    {
        self.updated = updated;
    }

    /// Returns the vertical border character.
    fn border_vertical(&self) -> (r: char) {
        self.border_vertical
    }

    /// Returns the horizontal border character.
    fn border_horizontal(&self) -> (r: char) {
        self.border_horizontal
    }

    /// Returns the intersection border character.
    fn border_intersect(&self) -> (r: char) {
        self.border_intersect
    }

    /// Returns the vertical padding.
    fn padding_vertical(&self) -> (r: u8) {
        self.padding_vertical
    }

    /// Returns the horizontal padding.
    fn padding_horizontal(&self) -> (r: u8) {
        self.padding_horizontal
    }
}

} // verus!
