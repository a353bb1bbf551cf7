//! The application: the pages, the one in focus, the page bar and the
//! command palette, and what each operation does to them.

use crate::command_palette::fresh_palette;
use crate::command_palette::palette_result;
use crate::command_palette::AppRes;
use crate::command_palette::CmdPalette;
use crate::command_palette::ReaderReply;
use crate::command_to_event::dispatched;
use crate::command_to_event::DispatchError;
use crate::page::fresh_page_bar;
use crate::page::page_bar_row;
use crate::page::Page;
use crate::page::PageBar;
use crate::page::PageBarRow;
use crate::page::PageBarRowView;
use crate::page::PageBarView;
use crate::page::PageType;
use crate::post::drawings_view;
use crate::post::PostData;
use crate::post::PostDataView;
use crate::post::PostDrawing;
use crate::post::PostDrawingView;
use crate::post::POST_ROWS;
use crate::prefs::TuiPrefs;
use crate::subreddit_listing_page::fresh_page;
use crate::subreddit_listing_page::lemma_moves_keep_drawing;
use crate::subreddit_listing_page::lemma_moves_keep_wf;
use crate::subreddit_listing_page::PageError;
use crate::subreddit_listing_page::PageView;
use crate::surface::Surface;
use vstd::prelude::*;
use vstd::string::StrSliceExecFns;

verus! {

/// Why the application cannot be set up.
#[derive(Clone, Copy, Debug, PartialEq, Eq, Hash, Structural)]
pub enum AppError {
    /// The terminal has no row for the palette, or more rows than a surface
    /// can be placed on.
    NoRoom,
}

/// A step of taking the application down.
#[derive(Clone, Copy, Debug, PartialEq, Eq, Hash, Structural)]
pub enum TeardownStep {
    /// Close the editable line of the palette.
    DestroyReader,
    /// Destroy the surface of the application, and with it every surface below it.
    DestroySurfaces,
    /// Stop the terminal.
    StopTerminal,
}

/// The application.
#[derive(Debug)]
pub struct App {
    plane: Surface,
    tui_prefs: TuiPrefs,
    foc_page: usize,
    pages: Vec<Page>,
    page_bar: PageBar,
    cmd_plt: CmdPalette,
    mouse_events: bool,
}

/// The mathematical form of the application.
pub struct AppView {
    /// The surface of the application: the whole terminal.
    pub plane: Surface,
    /// The preferences of the interface.
    pub tui_prefs: TuiPrefs,
    /// The position of the page in focus.
    pub foc_page: usize,
    /// The pages, in the order in which they were added.
    pub pages: Seq<PageView>,
    /// The page bar.
    pub page_bar: PageBarView,
    /// The command palette.
    pub cmd_plt: CmdPalette,
    /// Whether the terminal is to report mouse events.
    pub mouse_events: bool,
}

/// What a render draws.
#[derive(Debug, PartialEq, Eq)]
pub struct Frame {
    /// The page bar.
    pub page_bar: PageBarRow,
    /// What each page draws: its posts, from the top.
    pub pages: Vec<Vec<PostDrawing>>,
    /// The position of the one page that is on the screen, if there is a page.
    pub visible_page: Option<usize>,
}

/// The mathematical form of a `Frame`.
pub struct FrameView {
    pub page_bar: PageBarRowView,
    pub pages: Seq<Seq<PostDrawingView>>,
    pub visible_page: Option<usize>,
}

impl View for Frame {
    type V = FrameView;

    open spec fn view(&self) -> FrameView {
        FrameView {
            page_bar: self.page_bar@,
            pages: self.pages@.map_values(|v: Vec<PostDrawing>| drawings_view(v@)),
            visible_page: self.visible_page,
        }
    }
}

/// How many posts each page of the demonstration holds.
pub const DEMO_POSTS: u32 = 13;

/// The post number `x` of a page of the demonstration, the first page or
/// the second.
pub open spec fn demo_data(second: bool, x: u32) -> PostDataView {
    if second {
        PostDataView {
            upvotes: x,
            heading: "ffffff"@,
            body: "ooooooooooooooooooo"@,
            content: "hhhhhhhh"@,
            username: "bbbbbbbbb"@,
            subreddit_name: "hhhhhhhh"@,
            comments: 78,
        }
    } else {
        PostDataView {
            upvotes: x,
            heading: "hadfafda"@,
            body: "jfkladjfl ajdfla jdflkj"@,
            content: "fahfaljdf"@,
            username: "afhaldjf"@,
            subreddit_name: "rust"@,
            comments: 78,
        }
    }
}

/// `page` with the first `n` posts of the demonstration below its posts.
pub open spec fn with_demo_posts(page: PageView, prefs: TuiPrefs, second: bool, n: nat) -> PageView
    decreases n,
{
    if n == 0 {
        page
    } else {
        with_demo_posts(page, prefs, second, (n - 1) as nat).with_post(
            prefs,
            demo_data(second, (n - 1) as u32),
        )
    }
}

impl AppView {
    /// The invariant of the application: the terminal has a row for the
    /// palette; the page in focus is one of the pages, or the first where
    /// there is none; the page bar marks the page in focus; and each page
    /// meets its own invariant.
    pub open spec fn wf(self) -> bool {
        &&& self.plane.dim_y >= 1
        &&& self.plane.dim_y - 1 <= i32::MAX
        &&& self.pages.len() == 0 ==> self.foc_page == 0
        &&& self.pages.len() > 0 ==> self.foc_page < self.pages.len()
        &&& self.page_bar.foc_page == self.foc_page
        &&& forall|i: int| 0 <= i < self.pages.len() ==> (#[trigger] self.pages[i]).wf()
    }

    /// The application with the page at position `i` in focus.
    pub open spec fn focused(self, i: usize) -> AppView {
        AppView { foc_page: i, page_bar: PageBarView { foc_page: i, ..self.page_bar }, ..self }
    }

    /// The application asked to put the page at position `i` in focus: it
    /// does where there is such a page, and stays as it is otherwise.
    pub open spec fn with_foc_page(self, i: usize) -> AppView {
        if i < self.pages.len() {
            self.focused(i)
        } else {
            self
        }
    }

    /// The application with the next page in focus, the first after the last.
    pub open spec fn next_page(self) -> AppView {
        if self.pages.len() == 0 {
            self
        } else {
            self.focused(((self.foc_page + 1) % (self.pages.len() as int)) as usize)
        }
    }

    /// The application with the page before in focus, the last before the
    /// first.
    pub open spec fn prev_page(self) -> AppView {
        if self.pages.len() == 0 {
            self
        } else if self.foc_page == 0 {
            self.focused((self.pages.len() - 1) as usize)
        } else {
            self.focused((self.foc_page - 1) as usize)
        }
    }

    /// The application after a render: the page in focus is on the screen
    /// and no other page is.
    pub open spec fn rendered(self) -> AppView {
        AppView {
            pages: Seq::new(
                self.pages.len(),
                |i: int| self.pages[i].shown(i == self.foc_page),
            ),
            ..self
        }
    }

    /// What a render draws: the page bar and the posts of every page.
    pub open spec fn frame(self) -> FrameView {
        FrameView {
            page_bar: page_bar_row(
                self.page_bar.names,
                self.page_bar.foc_page,
                self.page_bar.plane.dim_x,
                self.tui_prefs,
            ),
            pages: self.pages.map_values(|p: PageView| p.drawing(self.tui_prefs)),
            visible_page: if self.pages.len() == 0 {
                None
            } else {
                Some(self.foc_page)
            },
        }
    }

    /// The page that `add_page` adds: below the page bar, as wide as the
    /// terminal and one row less high.
    pub open spec fn new_page(self) -> PageView {
        fresh_page(self.tui_prefs, 0, 1, self.plane.dim_x, (self.plane.dim_y - 1) as u32)
    }

    /// The application with `page` behind its pages, and in focus.
    pub open spec fn with_page(self, page: PageView) -> AppView {
        AppView { pages: self.pages.push(page), ..self }.focused(self.pages.len() as usize)
    }

    /// The application with its page in focus scrolled up, where there is
    /// one and it is not at its top.
    pub open spec fn scrolled_up(self) -> AppView {
        if self.pages.len() == 0 || self.pages[self.foc_page as int].at_top() {
            self
        } else {
            AppView {
                pages: self.pages.update(
                    self.foc_page as int,
                    self.pages[self.foc_page as int].scrolled_up(),
                ),
                ..self
            }
        }
    }

    /// The application with its page in focus scrolled down, where there is
    /// one and it is not at its bottom.
    pub open spec fn scrolled_down(self) -> AppView {
        if self.pages.len() == 0 || self.pages[self.foc_page as int].at_bottom() {
            self
        } else {
            AppView {
                pages: self.pages.update(
                    self.foc_page as int,
                    self.pages[self.foc_page as int].scrolled_down(),
                ),
                ..self
            }
        }
    }

    /// The application with the two pages of the demonstration behind its
    /// pages, and the second of them in focus.
    pub open spec fn with_demo(self) -> AppView {
        self.with_page(
            with_demo_posts(self.new_page(), self.tui_prefs, false, DEMO_POSTS as nat),
        ).with_page(with_demo_posts(self.new_page(), self.tui_prefs, true, DEMO_POSTS as nat))
    }
}

/// The command that the line of the palette holds: the line without its
/// first character, the `:` that opened it.
pub open spec fn command_text(contents: Seq<char>) -> Seq<char> {
    if contents.len() == 0 {
        contents
    } else {
        contents.subrange(1, contents.len() as int)
    }
}

/// The rows of a page that has taken the first `n` posts of the
/// demonstration.
proof fn lemma_demo_rows(page: PageView, prefs: TuiPrefs, second: bool, n: nat)
    requires
        page.content_len + POST_ROWS * n <= i32::MAX,
    ensures
        with_demo_posts(page, prefs, second, n).content_len == page.content_len + POST_ROWS * n,
    decreases n,
{
    if n > 0 {
        lemma_demo_rows(page, prefs, second, (n - 1) as nat);
    }
}

/// The post number `x` of a page of the demonstration.
fn demo_post(second: bool, x: u32) -> (data: PostData)
    ensures
        data@ == demo_data(second, x),
{
    if second {
        PostData {
            upvotes: x,
            heading: "ffffff".to_owned(),
            body: "ooooooooooooooooooo".to_owned(),
            content: "hhhhhhhh".to_owned(),
            username: "bbbbbbbbb".to_owned(),
            subreddit_name: "hhhhhhhh".to_owned(),
            comments: 78,
        }
    } else {
        PostData {
            upvotes: x,
            heading: "hadfafda".to_owned(),
            body: "jfkladjfl ajdfla jdflkj".to_owned(),
            content: "fahfaljdf".to_owned(),
            username: "afhaldjf".to_owned(),
            subreddit_name: "rust".to_owned(),
            comments: 78,
        }
    }
}

/// The application that `App::new` makes on a terminal of `dim_y` rows and
/// `dim_x` columns: no pages, the page bar in the first row, the palette in
/// the last.
pub open spec fn fresh_app(dim_y: u32, dim_x: u32, prefs: TuiPrefs) -> AppView {
    AppView {
        plane: Surface { x: 0, y: 0, dim_x, dim_y, channels: None, bold: false },
        tui_prefs: prefs,
        foc_page: 0,
        pages: Seq::empty(),
        page_bar: fresh_page_bar(prefs, 0, 0, dim_x, 1),
        cmd_plt: fresh_palette(prefs, 0, (dim_y - 1) as i32, dim_x, 1),
        mouse_events: prefs.interface.mouse_events_enable,
    }
}

/// Whether a terminal of `dim_y` rows has room for the application.
pub open spec fn has_room(dim_y: u32) -> bool {
    1 <= dim_y && dim_y - 1 <= i32::MAX
}

/// A second render in a row changes nothing, and shows what the first showed.
pub proof fn lemma_render_idempotent(app: AppView)
    requires
        app.wf(),
    ensures
        app.rendered().wf(),
        app.rendered().rendered() == app.rendered(),
        app.rendered().frame() == app.frame(),
{
    let once = app.rendered();
    assert forall|i: int| 0 <= i < once.pages.len() implies (#[trigger] once.pages[i]).wf() by {
        lemma_moves_keep_wf(app.pages[i], i == app.foc_page);
    }
    assert(once.rendered().pages =~= once.pages);
    assert forall|i: int| 0 <= i < once.pages.len() implies once.frame().pages[i]
        == app.frame().pages[i] by {
        lemma_moves_keep_drawing(app.pages[i], app.tui_prefs, i == app.foc_page);
    }
    assert(once.frame().pages =~= app.frame().pages);
}

/// After a render exactly one page is on the screen, where there is a page:
/// the page in focus.
pub proof fn lemma_one_page_visible(app: AppView, i: int)
    requires
        app.wf(),
        0 <= i < app.pages.len(),
    ensures
        app.rendered().pages[i].visible <==> i == app.foc_page,
        app.rendered().pages[app.foc_page as int].visible,
{
}

/// Putting a page in focus, by its position or by a step forward or back,
/// and adding a page keep the invariant of the application, and so does a
/// render.
pub proof fn lemma_focus_keeps_wf(app: AppView, i: usize)
    requires
        app.wf(),
    ensures
        app.with_foc_page(i).wf(),
        app.next_page().wf(),
        app.prev_page().wf(),
        app.with_page(app.new_page()).wf(),
        app.rendered().wf(),
{
    lemma_render_idempotent(app);
    let added = app.with_page(app.new_page());
    assert forall|j: int| 0 <= j < added.pages.len() implies (#[trigger] added.pages[j]).wf() by {
        if j < app.pages.len() {
            assert(added.pages[j] == app.pages[j]);
        }
    }
}

impl View for App {
    type V = AppView;

    closed spec fn view(&self) -> AppView {
        AppView {
            plane: self.plane,
            tui_prefs: self.tui_prefs,
            foc_page: self.foc_page,
            pages: self.pages@.map_values(|p: Page| p@),
            page_bar: self.page_bar@,
            cmd_plt: self.cmd_plt,
            mouse_events: self.mouse_events,
        }
    }
}

impl App {
    /// The application on a terminal of `dim_y` rows and `dim_x` columns.
    pub fn new(dim_y: u32, dim_x: u32, tui_prefs: TuiPrefs) -> (made: Result<App, AppError>)
        ensures
            made is Ok <==> has_room(dim_y),
            made is Ok ==> made->Ok_0@ == fresh_app(dim_y, dim_x, tui_prefs) && made->Ok_0@.wf(),
            made is Err ==> made->Err_0 == AppError::NoRoom,
    {
        if dim_y == 0 || dim_y - 1 > i32::MAX as u32 {
            return Err(AppError::NoRoom);
        }
        let plane = Surface::new(0, 0, dim_x, dim_y);
        let cmd_plt = CmdPalette::new(&tui_prefs, 0, (dim_y - 1) as i32, dim_x, 1);
        let page_bar = PageBar::new(&tui_prefs, 0, 0, dim_x, 1);
        let app = App {
            plane,
            tui_prefs,
            foc_page: 0,
            pages: Vec::new(),
            page_bar,
            cmd_plt,
            mouse_events: tui_prefs.interface.mouse_events_enable,
        };
        assert(app@.pages =~= Seq::<PageView>::empty());
        Ok(app)
    }

    /// The position of the page in focus.
    pub fn foc_page(&self) -> (foc_page: usize)
        ensures
            foc_page == self@.foc_page,
    {
        self.foc_page
    }

    /// The number of pages.
    pub fn page_count(&self) -> (count: usize)
        ensures
            count == self@.pages.len(),
    {
        self.pages.len()
    }

    /// The page at position `index`.
    pub fn page(&self, index: usize) -> (page: &Page)
        requires
            index < self@.pages.len(),
        ensures
            page@ == self@.pages[index as int],
    {
        &self.pages[index]
    }

    /// The page bar.
    pub fn page_bar(&self) -> (bar: &PageBar)
        ensures
            bar@ == self@.page_bar,
    {
        &self.page_bar
    }

    /// The command palette.
    pub fn cmd_plt(&self) -> (palette: CmdPalette)
        ensures
            palette == self@.cmd_plt,
    {
        self.cmd_plt
    }

    /// The preferences of the interface.
    pub fn tui_prefs(&self) -> (prefs: TuiPrefs)
        ensures
            prefs == self@.tui_prefs,
    {
        self.tui_prefs
    }

    /// Whether the terminal is to report mouse events.
    pub fn mouse_events(&self) -> (enabled: bool)
        ensures
            enabled == self@.mouse_events,
    {
        self.mouse_events
    }

    /// Adds a page of the variant `page_type` behind the pages and puts it in
    /// focus.
    pub fn add_page(&mut self, page_type: PageType)
        requires
            old(self)@.wf(),
        ensures
            final(self)@ == old(self)@.with_page(old(self)@.new_page()),
            final(self)@.wf(),
    {
        proof {
            lemma_focus_keeps_wf(self@, 0);
        }
        let ghost before = self@;
        let page = Page::new(
            page_type,
            &self.tui_prefs,
            0,
            1,
            self.plane.dim_x,
            self.plane.dim_y - 1,
        );
        self.pages.push(page);
        let last = self.pages.len() - 1;
        self.foc_page = last;
        self.page_bar.set_foc_page(last);
        assert(self@.pages =~= before.with_page(before.new_page()).pages);
    }

    /// Puts a post of `data` below the posts of the page at position
    /// `index`, unless that page is full.
    pub fn add_post(&mut self, index: usize, data: PostData) -> (done: Result<(), PageError>)
        requires
            old(self)@.wf(),
            index < old(self)@.pages.len(),
        ensures
            final(self)@.wf(),
            done is Err <==> old(self)@.pages[index as int].full(),
            done is Err ==> done->Err_0 == PageError::TooManyPosts && final(self)@ == old(self)@,
            done is Ok ==> final(self)@ == (AppView {
                pages: old(self)@.pages.update(
                    index as int,
                    old(self)@.pages[index as int].with_post(old(self)@.tui_prefs, data@),
                ),
                ..old(self)@
            }),
    {
        let ghost before = self@;
        assert(before.pages[index as int].wf());
        assert(self.pages@[index as int]@ == before.pages[index as int]);
        let done = self.pages[index].add_post(&self.tui_prefs, data);
        proof {
            let after = self@;
            if done is Ok {
                assert(after.pages =~= before.pages.update(
                    index as int,
                    before.pages[index as int].with_post(before.tui_prefs, data@),
                ));
            } else {
                assert(after.pages =~= before.pages);
            }
            assert forall|i: int| 0 <= i < after.pages.len() implies (#[trigger] after.pages[i]).wf() by {
                if i != index {
                    assert(after.pages[i] == before.pages[i]);
                }
            }
        }
        done
    }

    /// Puts the page at position `new_foc_page` in focus, where there is
    /// such a page; the application stays as it is where there is none.
    pub fn set_foc_page(&mut self, new_foc_page: usize)
        requires
            old(self)@.wf(),
        ensures
            final(self)@ == old(self)@.with_foc_page(new_foc_page),
            final(self)@.wf(),
    {
        if new_foc_page < self.pages.len() {
            self.foc_page = new_foc_page;
            self.page_bar.set_foc_page(new_foc_page);
        }
    }

    /// Puts the next page in focus, the first after the last.
    pub fn switch_next_page(&mut self)
        requires
            old(self)@.wf(),
        ensures
            final(self)@ == old(self)@.next_page(),
            final(self)@.wf(),
    {
        if self.pages.len() > 0 {
            let next = (self.foc_page + 1) % self.pages.len();
            self.foc_page = next;
            self.page_bar.set_foc_page(next);
        }
    }

    /// Puts the page before in focus, the last before the first.
    pub fn switch_prev_page(&mut self)
        requires
            old(self)@.wf(),
        ensures
            final(self)@ == old(self)@.prev_page(),
            final(self)@.wf(),
    {
        if self.pages.len() > 0 {
            let prev = if self.foc_page == 0 {
                self.pages.len() - 1
            } else {
                self.foc_page - 1
            };
            self.foc_page = prev;
            self.page_bar.set_foc_page(prev);
        }
    }

    /// Scrolls the page in focus up by one step. Nothing happens where
    /// there is no page or the page is at its top.
    pub fn scroll_up(&mut self)
        requires
            old(self)@.wf(),
        ensures
            final(self)@ == old(self)@.scrolled_up(),
            final(self)@.wf(),
    {
        if self.pages.len() == 0 {
            return ;
        }
        let ghost before = self@;
        let foc = self.foc_page;
        assert(before.pages[foc as int].wf());
        assert(self.pages@[foc as int]@ == before.pages[foc as int]);
        let done = self.pages[foc].scroll_up();
        proof {
            let after = self@;
            assert(after.pages =~= before.scrolled_up().pages);
            assert forall|i: int| 0 <= i < after.pages.len() implies (#[trigger] after.pages[i]).wf() by {
                if i != foc {
                    assert(after.pages[i] == before.pages[i]);
                }
            }
        }
    }

    /// Scrolls the page in focus down by one step. Nothing happens where
    /// there is no page or the page is at its bottom.
    pub fn scroll_down(&mut self)
        requires
            old(self)@.wf(),
        ensures
            final(self)@ == old(self)@.scrolled_down(),
            final(self)@.wf(),
    {
        if self.pages.len() == 0 {
            return ;
        }
        let ghost before = self@;
        let foc = self.foc_page;
        assert(before.pages[foc as int].wf());
        assert(self.pages@[foc as int]@ == before.pages[foc as int]);
        let done = self.pages[foc].scroll_down();
        proof {
            let after = self@;
            assert(after.pages =~= before.scrolled_down().pages);
            assert forall|i: int| 0 <= i < after.pages.len() implies (#[trigger] after.pages[i]).wf() by {
                if i != foc {
                    assert(after.pages[i] == before.pages[i]);
                }
            }
        }
    }

    /// Renders: puts the page in focus on the screen, takes every other
    /// page off it, and draws every page and the page bar.
    pub fn render(&mut self) -> (frame: Frame)
        requires
            old(self)@.wf(),
        ensures
            final(self)@ == old(self)@.rendered(),
            final(self)@.wf(),
            frame@ == final(self)@.frame(),
            forall|i: int|
                0 <= i < final(self)@.pages.len() ==> ((#[trigger] final(self)@.pages[i]).visible <==> i
                    == final(self)@.foc_page),
    {
        let ghost before = self@;
        proof {
            lemma_render_idempotent(before);
        }
        let mut pages: Vec<Vec<PostDrawing>> = Vec::new();
        let mut i: usize = 0;
        while i < self.pages.len()
            invariant
                i <= self.pages.len(),
                before.wf(),
                self.pages@.len() == before.pages.len(),
                self@ == (AppView { pages: self@.pages, ..before }),
                forall|j: int|
                    0 <= j < i ==> (#[trigger] self.pages@[j])@ == before.pages[j].shown(
                        j == before.foc_page,
                    ),
                forall|j: int|
                    i <= j < self.pages@.len() ==> (#[trigger] self.pages@[j])@ == before.pages[j],
                pages@.len() == i,
                forall|j: int|
                    0 <= j < i ==> drawings_view((#[trigger] pages@[j])@) == before.pages[j].shown(
                        j == before.foc_page,
                    ).drawing(before.tui_prefs),
            decreases self.pages.len() - i,
        {
            assert(self.pages@[i as int]@ == before.pages[i as int]);
            assert(before.pages[i as int].wf());
            let show = i == self.foc_page;
            self.pages[i].set_visibility(show);
            let drawings = self.pages[i].draw(&self.tui_prefs);
            pages.push(drawings);
            i += 1;
        }
        assert(self@.pages =~= before.rendered().pages);
        let page_bar = self.page_bar.draw(&self.tui_prefs);
        let visible_page = if self.pages.len() == 0 {
            None
        } else {
            Some(self.foc_page)
        };
        let frame = Frame { page_bar, pages, visible_page };
        assert(frame@.pages =~= self@.frame().pages);
        frame
    }

    /// Opens the command palette: the terminal puts `:` in its line, and
    /// the application renders.
    pub fn enter_cmd(&mut self) -> (frame: Frame)
        requires
            old(self)@.wf(),
        ensures
            final(self)@ == old(self)@.rendered(),
            final(self)@.wf(),
            frame@ == final(self)@.frame(),
    {
        self.render()
    }

    /// Closes the command palette: the terminal clears its line, and the
    /// application renders.
    pub fn exit_cmd(&mut self) -> (frame: Frame)
        requires
            old(self)@.wf(),
        ensures
            final(self)@ == old(self)@.rendered(),
            final(self)@.wf(),
            frame@ == final(self)@.frame(),
    {
        self.render()
    }

    /// Takes what the terminal reports of a keystroke that was offered to
    /// the palette, renders, and says whether the palette stays open.
    pub fn input_cmd_plt(&mut self, reply: &ReaderReply) -> (res: AppRes)
        requires
            old(self)@.wf(),
        ensures
            final(self)@ == old(self)@.rendered(),
            final(self)@.wf(),
            res == palette_result(reply@),
    {
        let res = self.cmd_plt.input(reply);
        let _ = self.render();
        res
    }

    /// Carries out the command that the line of the palette holds:
    /// `contents` is the line as the terminal reports it, which the terminal
    /// then clears. The application renders and hands the command, the line
    /// without its first character, to the dispatcher.
    pub fn exec_cmd(&mut self, contents: &str) -> (res: Result<Option<AppRes>, DispatchError>)
        requires
            old(self)@.wf(),
        ensures
            (final(self)@, res) == dispatched(old(self)@.rendered(), command_text(contents@)),
            final(self)@.wf(),
    {
        let n = contents.unicode_len();
        let cmd = if n == 0 {
            contents
        } else {
            contents.substring_char(1, n)
        };
        let _ = self.render();
        crate::command_to_event::exec_cmd(self, cmd)
    }

    /// Puts the posts of the demonstration on the page at position `index`.
    fn fill_demo(&mut self, index: usize, second: bool)
        requires
            old(self)@.wf(),
            index < old(self)@.pages.len(),
            old(self)@.pages[index as int].content_len == 0,
        ensures
            final(self)@.wf(),
            final(self)@ == (AppView {
                pages: old(self)@.pages.update(
                    index as int,
                    with_demo_posts(
                        old(self)@.pages[index as int],
                        old(self)@.tui_prefs,
                        second,
                        DEMO_POSTS as nat,
                    ),
                ),
                ..old(self)@
            }),
    {
        let ghost before = self@;
        let ghost page = before.pages[index as int];
        let mut x: u32 = 0;
        assert(self@.pages =~= before.pages.update(index as int, page));
        while x < DEMO_POSTS
            invariant
                x <= DEMO_POSTS,
                self@.wf(),
                index < before.pages.len(),
                page == before.pages[index as int],
                page.content_len == 0,
                self@ == (AppView {
                    pages: before.pages.update(
                        index as int,
                        with_demo_posts(page, before.tui_prefs, second, x as nat),
                    ),
                    ..before
                }),
            decreases DEMO_POSTS - x,
        {
            proof {
                lemma_demo_rows(page, before.tui_prefs, second, x as nat);
            }
            let ghost so_far = with_demo_posts(page, before.tui_prefs, second, x as nat);
            assert(self@.pages[index as int] == so_far);
            let done = self.add_post(index, demo_post(second, x));
            assert(done is Ok);
            x += 1;
            assert(self@.pages =~= before.pages.update(
                index as int,
                with_demo_posts(page, before.tui_prefs, second, x as nat),
            ));
        }
    }

    /// Sets up the demonstration: two pages behind the pages, thirteen posts
    /// on each, and the second of them in focus.
    pub fn dummy_render(&mut self)
        requires
            old(self)@.wf(),
        ensures
            final(self)@ == old(self)@.with_demo(),
            final(self)@.wf(),
    {
        let ghost before = self@;
        self.add_page(PageType::SubredditListing);
        let first = self.pages.len() - 1;
        self.fill_demo(first, false);
        let ghost between = self@;
        assert(between.pages =~= before.pages.push(
            with_demo_posts(before.new_page(), before.tui_prefs, false, DEMO_POSTS as nat),
        ));
        self.add_page(PageType::SubredditListing);
        let last = self.pages.len() - 1;
        self.fill_demo(last, true);
        assert(self@.pages =~= before.with_demo().pages);
    }

    /// Closes the line of the palette, which has to go before the surfaces.
    pub fn destroy_reader(&mut self)
        ensures
            final(self)@ == (AppView {
                cmd_plt: CmdPalette { reader_open: false, ..old(self)@.cmd_plt },
                ..old(self)@
            }),
    {
        self.cmd_plt.destroy_reader();
    }

    /// Takes the application down: closes the line of the palette, and says
    /// in which order the terminal has to follow. The line goes first, the
    /// surfaces second, the terminal last.
    pub fn teardown(&mut self) -> (steps: Vec<TeardownStep>)
        ensures
            steps@ == seq![
                TeardownStep::DestroyReader,
                TeardownStep::DestroySurfaces,
                TeardownStep::StopTerminal,
            ],
            final(self)@ == (AppView {
                cmd_plt: CmdPalette { reader_open: false, ..old(self)@.cmd_plt },
                ..old(self)@
            }),
    {
        self.destroy_reader();
        let mut steps: Vec<TeardownStep> = Vec::new();
        steps.push(TeardownStep::DestroyReader);
        steps.push(TeardownStep::DestroySurfaces);
        steps.push(TeardownStep::StopTerminal);
        assert(steps@ =~= seq![
            TeardownStep::DestroyReader,
            TeardownStep::DestroySurfaces,
            TeardownStep::StopTerminal,
        ]);
        steps
    }
}

} // verus!
