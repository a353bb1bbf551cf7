//! Pages and the bar that lists them.

use crate::post::drawings_view;
use crate::post::PlacedText;
use crate::post::PostData;
use crate::post::PostDrawing;
use crate::post::SubListPost;
use crate::prefs::TuiPrefs;
use crate::subreddit_listing_page::fresh_page;
use crate::subreddit_listing_page::PageError;
use crate::subreddit_listing_page::PageView;
use crate::subreddit_listing_page::SubListPage;
use crate::subreddit_listing_page::SCROLL_STEP;
use crate::surface::Channels;
use crate::surface::Surface;
use crate::text::clip;
use crate::text::clipped;
use crate::text::decimal;
use crate::text::decimal_digits;
use vstd::prelude::*;
use vstd::string::StringExecFns;

verus! {

/// The variants of a page.
#[derive(Clone, Copy, Debug, PartialEq, Eq, Hash, Structural)]
pub enum PageType {
    SubredditListing,
}

/// A page of the application.
#[derive(Debug)]
pub enum Page {
    SubredditListing(SubListPage),
}

impl View for Page {
    type V = PageView;

    open spec fn view(&self) -> PageView {
        match self {
            Page::SubredditListing(page) => page@,
        }
    }
}

impl Page {
    /// A page of the variant `page_type`, without contents, at `(x, y)` of its
    /// parent.
    pub fn new(page_type: PageType, tui_prefs: &TuiPrefs, x: i32, y: i32, dim_x: u32, dim_y: u32) -> (made:
        Page)
        ensures
            made@ == fresh_page(*tui_prefs, x, y, dim_x, dim_y),
            made@.wf(),
            made.page_type() == page_type,
    {
        match page_type {
            PageType::SubredditListing => Page::SubredditListing(
                SubListPage::new(tui_prefs, x, y, dim_x, dim_y),
            ),
        }
    }

    /// The variant of the page.
    pub open spec fn page_type(self) -> PageType {
        match self {
            Page::SubredditListing(_) => PageType::SubredditListing,
        }
    }

    /// Whether the page is on the screen.
    pub fn is_visible(&self) -> (visible: bool)
        ensures
            visible == self@.visible,
    {
        match self {
            Page::SubredditListing(page) => page.is_visible(),
        }
    }

    /// The rows that the page is scrolled down by.
    pub fn scrolled(&self) -> (rows: u32)
        ensures
            rows == self@.scrolled,
    {
        match self {
            Page::SubredditListing(page) => page.scrolled(),
        }
    }

    /// The surface of the page.
    pub fn plane(&self) -> (plane: Surface)
        ensures
            plane == self@.plane,
    {
        match self {
            Page::SubredditListing(page) => page.plane(),
        }
    }

    /// The number of posts on the page.
    pub fn post_count(&self) -> (count: usize)
        ensures
            count == self@.posts.len(),
    {
        match self {
            Page::SubredditListing(page) => page.post_count(),
        }
    }

    /// The post at position `index` from the top.
    pub fn post(&self, index: usize) -> (post: &SubListPost)
        requires
            index < self@.posts.len(),
        ensures
            post@ == self@.posts[index as int],
    {
        match self {
            Page::SubredditListing(page) => page.post(index),
        }
    }

    /// Puts the page on the screen or takes it off.
    pub fn set_visibility(&mut self, visible: bool)
        requires
            old(self)@.wf(),
        ensures
            final(self)@ == old(self)@.shown(visible),
            final(self)@.wf(),
            final(self).page_type() == old(self).page_type(),
    {
        match self {
            Page::SubredditListing(page) => page.set_visibility(visible),
        }
    }

    /// Scrolls the page up by one step, unless it is at its top.
    pub fn scroll_up(&mut self) -> (done: Result<(), PageError>)
        requires
            old(self)@.wf(),
        ensures
            final(self)@.wf(),
            final(self).page_type() == old(self).page_type(),
            done is Err <==> old(self)@.at_top(),
            done is Err ==> done->Err_0 == PageError::TopReached && final(self)@ == old(self)@,
            done is Ok ==> final(self)@ == old(self)@.scrolled_up(),
            done is Ok ==> final(self)@.scrolled == old(self)@.scrolled - SCROLL_STEP,
    {
        match self {
            Page::SubredditListing(page) => page.scroll_up(),
        }
    }

    /// Scrolls the page down by one step, unless it is at its bottom.
    pub fn scroll_down(&mut self) -> (done: Result<(), PageError>)
        requires
            old(self)@.wf(),
        ensures
            final(self)@.wf(),
            final(self).page_type() == old(self).page_type(),
            done is Err <==> old(self)@.at_bottom(),
            done is Err ==> done->Err_0 == PageError::BottomReached && final(self)@ == old(self)@,
            done is Ok ==> final(self)@ == old(self)@.scrolled_down(),
            done is Ok ==> final(self)@.scrolled == old(self)@.scrolled + SCROLL_STEP,
    {
        match self {
            Page::SubredditListing(page) => page.scroll_down(),
        }
    }

    /// Puts a post of `data` below the posts of the page, unless the page
    /// is full.
    pub fn add_post(&mut self, tui_prefs: &TuiPrefs, data: PostData) -> (done: Result<
        (),
        PageError,
    >)
        requires
            old(self)@.wf(),
        ensures
            final(self)@.wf(),
            final(self).page_type() == old(self).page_type(),
            done is Err <==> old(self)@.full(),
            done is Err ==> done->Err_0 == PageError::TooManyPosts && final(self)@ == old(self)@,
            done is Ok ==> final(self)@ == old(self)@.with_post(*tui_prefs, data@),
    {
        match self {
            Page::SubredditListing(page) => page.add_post(tui_prefs, data),
        }
    }

    /// What the posts of the page draw, from the top.
    pub fn draw(&self, tui_prefs: &TuiPrefs) -> (drawings: Vec<PostDrawing>)
        ensures
            drawings_view(drawings@) == self@.drawing(*tui_prefs),
    {
        match self {
            Page::SubredditListing(page) => page.draw(tui_prefs),
        }
    }

    /// Fetches the contents of the page. Nothing is fetched yet: the page
    /// stays as it is.
    pub fn fetch(&mut self)
        ensures
            final(self)@ == old(self)@,
            final(self).page_type() == old(self).page_type(),
    {
        match self {
            Page::SubredditListing(page) => page.fetch(),
        }
    }
}

/// The columns of the slot that the page bar gives each page.
pub const PAGE_NAME_WIDTH: u32 = 7;

/// The characters of the name of a page that its slot shows.
pub const PAGE_NAME_CHARS: usize = 4;

/// The bar at the top that lists the pages and marks the one in focus.
#[derive(Debug)]
pub struct PageBar {
    plane: Surface,
    foc_page: usize,
    page_names: Vec<String>,
}

/// The mathematical form of the page bar.
pub struct PageBarView {
    /// The surface of the bar.
    pub plane: Surface,
    /// The position of the page in focus.
    pub foc_page: usize,
    /// The names of the pages, in their order.
    pub names: Seq<Seq<char>>,
}

impl View for PageBar {
    type V = PageBarView;

    closed spec fn view(&self) -> PageBarView {
        PageBarView {
            plane: self.plane,
            foc_page: self.foc_page,
            names: self.page_names@.map_values(|n: String| n@),
        }
    }
}

/// The page bar as it is drawn.
#[derive(Debug, PartialEq, Eq)]
pub struct PageBarRow {
    /// The slots of the pages, from the left.
    pub slots: Vec<PlacedText>,
    /// The first column of the slot in focus, where that slot begins on the bar.
    pub stain_col: Option<u32>,
    /// The columns of the slot in focus: those of a slot, or fewer at the
    /// right edge of the bar.
    pub stain_cols: u32,
    /// The colours of the slot in focus.
    pub stain: Channels,
}

/// The mathematical form of the page bar as it is drawn.
pub struct PageBarRowView {
    pub slots: Seq<(u32, Seq<char>)>,
    pub stain_col: Option<u32>,
    pub stain_cols: u32,
    pub stain: Channels,
}

impl View for PageBarRow {
    type V = PageBarRowView;

    open spec fn view(&self) -> PageBarRowView {
        PageBarRowView {
            slots: self.slots@.map_values(|s: PlacedText| (s.col, s.text@)),
            stain_col: self.stain_col,
            stain_cols: self.stain_cols,
            stain: self.stain,
        }
    }
}

/// The text of the slot of the page at position `pos`: the position, a
/// colon, and the first `PAGE_NAME_CHARS` characters of the name.
pub open spec fn slot_text(pos: nat, name: Seq<char>) -> Seq<char> {
    decimal_digits(pos) + seq![':'] + clipped(name, PAGE_NAME_CHARS as nat)
}

/// How many of `n` pages have a slot on a bar of `dim_x` columns: a slot is
/// drawn where the bar reaches beyond its last column.
pub open spec fn slots_shown(n: nat, dim_x: u32) -> nat {
    if dim_x == 0 {
        0
    } else if n <= (dim_x - 1) / (PAGE_NAME_WIDTH as int) {
        n
    } else {
        ((dim_x - 1) / (PAGE_NAME_WIDTH as int)) as nat
    }
}

/// The page bar of the pages `names`, with the page `foc_page` in focus, on
/// a bar of `dim_x` columns.
pub open spec fn page_bar_row(names: Seq<Seq<char>>, foc_page: usize, dim_x: u32, prefs: TuiPrefs) -> PageBarRowView {
    PageBarRowView {
        slots: Seq::new(
            slots_shown(names.len(), dim_x),
            |pos: int| ((pos * PAGE_NAME_WIDTH) as u32, slot_text(pos as nat, names[pos])),
        ),
        stain_col: if foc_page * PAGE_NAME_WIDTH < dim_x {
            Some((foc_page * PAGE_NAME_WIDTH) as u32)
        } else {
            None
        },
        stain_cols: if foc_page * PAGE_NAME_WIDTH < dim_x && dim_x - foc_page * PAGE_NAME_WIDTH
            < PAGE_NAME_WIDTH {
            (dim_x - foc_page * PAGE_NAME_WIDTH) as u32
        } else {
            PAGE_NAME_WIDTH
        },
        stain: Channels { fg: prefs.theme.page_bar_fg, bg: prefs.theme.page_bar_current_bg },
    }
}

/// The page bar that `PageBar::new` makes: at `(x, y)`, in the colours that
/// the theme gives the bar, with the first page in focus.
pub open spec fn fresh_page_bar(prefs: TuiPrefs, x: i32, y: i32, dim_x: u32, dim_y: u32) -> PageBarView {
    PageBarView {
        plane: Surface {
            x: x as i64,
            y: y as i64,
            dim_x,
            dim_y,
            channels: Some(Channels { fg: prefs.theme.page_bar_fg, bg: prefs.theme.page_bar_bg }),
            bold: false,
        },
        foc_page: 0,
        names: seq!["hello"@, "yoyou"@],
    }
}

impl PageBar {
    /// The page bar at `(x, y)` of its parent, in the colours that the theme
    /// gives it, with the first page in focus.
    pub fn new(tui_prefs: &TuiPrefs, x: i32, y: i32, dim_x: u32, dim_y: u32) -> (made: PageBar)
        ensures
            made@ == fresh_page_bar(*tui_prefs, x, y, dim_x, dim_y),
    {
        let plane = Surface::painted(
            x as i64,
            y as i64,
            dim_x,
            dim_y,
            tui_prefs.theme.page_bar_fg,
            tui_prefs.theme.page_bar_bg,
            false,
        );
        let mut page_names: Vec<String> = Vec::new();
        page_names.push("hello".to_owned());
        page_names.push("yoyou".to_owned());
        let made = PageBar { plane, foc_page: 0, page_names };
        assert(made@.names =~= seq!["hello"@, "yoyou"@]);
        made
    }

    /// The position of the page in focus.
    pub fn foc_page(&self) -> (foc_page: usize)
        ensures
            foc_page == self@.foc_page,
    {
        self.foc_page
    }

    /// The surface of the bar.
    pub fn plane(&self) -> (plane: Surface)
        ensures
            plane == self@.plane,
    {
        self.plane
    }

    /// Puts the page at position `foc_page` in focus.
    pub fn set_foc_page(&mut self, foc_page: usize)
        ensures
            final(self)@ == (PageBarView { foc_page, ..old(self)@ }),
    {
        self.foc_page = foc_page;
    }

    /// The text of the slot of the page at position `pos`.
    fn slot(pos: usize, name: &str) -> (text: String)
        ensures
            text@ == slot_text(pos as nat, name@),
    {
        proof {
            reveal_strlit(":");
        }
        let mut text = decimal(pos as u64);
        text.append(":");
        let short = clip(name, PAGE_NAME_CHARS);
        text.append(short.as_str());
        assert(text@ =~= slot_text(pos as nat, name@));
        text
    }

    /// What the page bar draws.
    pub fn draw(&self, tui_prefs: &TuiPrefs) -> (row: PageBarRow)
        ensures
            row@ == page_bar_row(self@.names, self@.foc_page, self@.plane.dim_x, *tui_prefs),
    {
        let dim_x = self.plane.dim_x;
        let ghost names = self@.names;
        let mut slots: Vec<PlacedText> = Vec::new();
        let room: usize = if dim_x == 0 {
            0
        } else {
            ((dim_x - 1) / PAGE_NAME_WIDTH) as usize
        };
        let mut pos: usize = 0;
        while pos < self.page_names.len() && pos < room
            invariant
                room == (if dim_x == 0 {
                    0
                } else {
                    (dim_x - 1) / (PAGE_NAME_WIDTH as int)
                }),
                pos <= self.page_names.len(),
                names == self@.names,
                dim_x == self.plane.dim_x,
                pos <= slots_shown(names.len(), dim_x),
                slots@.len() == pos,
                forall|j: int|
                    #![trigger slots@[j]]
                    0 <= j < pos ==> slots@[j].col == j * PAGE_NAME_WIDTH && slots@[j].text@
                        == slot_text(j as nat, names[j]),
            decreases self.page_names.len() - pos,
        {
            assert(names[pos as int] == self.page_names@[pos as int]@);
            let text = PageBar::slot(pos, self.page_names[pos].as_str());
            slots.push(PlacedText { col: (pos as u32) * PAGE_NAME_WIDTH, text });
            pos += 1;
        }
        let foc = self.foc_page;
        let in_bar = foc <= (u32::MAX / PAGE_NAME_WIDTH) as usize && (foc as u32) * PAGE_NAME_WIDTH
            < dim_x;
        let stain_col = if in_bar {
            Some((foc as u32) * PAGE_NAME_WIDTH)
        } else {
            None
        };
        let stain_cols = if in_bar && dim_x - (foc as u32) * PAGE_NAME_WIDTH < PAGE_NAME_WIDTH {
            dim_x - (foc as u32) * PAGE_NAME_WIDTH
        } else {
            PAGE_NAME_WIDTH
        };
        let row = PageBarRow {
            slots,
            stain_col,
            stain_cols,
            stain: Channels {
                fg: tui_prefs.theme.page_bar_fg,
                bg: tui_prefs.theme.page_bar_current_bg,
            },
        };
        assert(row@.slots =~= page_bar_row(names, self.foc_page, dim_x, *tui_prefs).slots);
        row
    }
}

} // verus!
