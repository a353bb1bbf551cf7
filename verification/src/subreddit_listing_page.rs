//! The page that lists the posts of a subreddit.

use crate::post::drawings_view;
use crate::post::fresh_post;
use crate::post::post_drawing;
use crate::post::PostData;
use crate::post::PostDataView;
use crate::post::PostDrawing;
use crate::post::PostDrawingView;
use crate::post::PostView;
use crate::post::SubListPost;
use crate::post::POST_ROWS;
use crate::prefs::TuiPrefs;
use crate::surface::Channels;
use crate::surface::Surface;
use crate::surface::REACH;
use vstd::prelude::*;

verus! {

/// The rows that one step of scrolling moves a page.
pub const SCROLL_STEP: u32 = 2;

/// Why a page refuses what it is asked.
#[derive(Clone, Copy, Debug, PartialEq, Eq, Hash, Structural)]
pub enum PageError {
    /// The page is at its top and cannot scroll up.
    TopReached,
    /// The page is at its bottom and cannot scroll down.
    BottomReached,
    /// The page holds as many posts as its rows can be counted for.
    TooManyPosts,
}

/// A page that lists posts, one below the other, each on `POST_ROWS` rows.
#[derive(Debug)]
pub struct SubListPage {
    plane: Surface,
    posts: Vec<SubListPost>,
    visible: bool,
    scrolled: u32,
    content_len: u32,
    home_x: i32,
    home_y: i32,
}

/// The mathematical form of a page.
pub struct PageView {
    /// The column at which the page lies while it is visible.
    pub home_x: i32,
    /// The row at which the page lies while it is not scrolled.
    pub home_y: i32,
    /// The surface of the page.
    pub plane: Surface,
    /// The posts, from the top.
    pub posts: Seq<PostView>,
    /// Whether the page is on the screen.
    pub visible: bool,
    /// The rows that the page is scrolled down by.
    pub scrolled: u32,
    /// The rows that the posts take.
    pub content_len: u32,
}

impl PageView {
    /// The columns that the page is moved to the right by: none while it is
    /// visible, its own width while it is not.
    pub open spec fn shift(self) -> int {
        if self.visible {
            0
        } else {
            self.plane.dim_x as int
        }
    }

    /// The invariant of a page: its posts take `POST_ROWS` rows each; it is
    /// scrolled by whole steps and, unless not at all, no further than its
    /// last rows; and its surface and those of its posts lie where `shift`
    /// and `scrolled` put them.
    pub open spec fn wf(self) -> bool {
        &&& self.content_len == POST_ROWS * self.posts.len()
        &&& self.content_len <= i32::MAX
        &&& self.scrolled % SCROLL_STEP == 0
        &&& self.scrolled == 0 || self.scrolled + self.plane.dim_y <= self.content_len
        &&& self.plane.x == self.home_x + self.shift()
        &&& self.plane.y == self.home_y - self.scrolled
        &&& forall|i: int|
            0 <= i < self.posts.len() ==> (#[trigger] self.posts[i]).placed(
                i,
                self.shift(),
                -self.scrolled,
                self.plane.dim_x,
                self.plane.dim_y,
            )
    }

    /// Whether the surface of the page and those of its posts lie within
    /// `REACH` of the origin.
    pub open spec fn in_reach(self) -> bool {
        &&& self.plane.in_reach()
        &&& forall|i: int| 0 <= i < self.posts.len() ==> (#[trigger] self.posts[i]).in_reach()
    }

    /// The page with its surface and those of its posts moved by `dx`
    /// columns and `dy` rows.
    pub open spec fn moved(self, dx: int, dy: int) -> PageView {
        PageView {
            plane: self.plane.moved(dx, dy),
            posts: self.posts.map_values(|p: PostView| p.moved(dx, dy)),
            ..self
        }
    }

    /// Whether the page cannot scroll up.
    pub open spec fn at_top(self) -> bool {
        self.scrolled == 0
    }

    /// Whether the page cannot scroll down: it has no rows, or the last row
    /// but one is on the screen.
    pub open spec fn at_bottom(self) -> bool {
        self.content_len == 0 || self.scrolled + self.plane.dim_y >= self.content_len - 1
    }

    /// The page scrolled down by one step.
    pub open spec fn scrolled_down(self) -> PageView {
        PageView {
            scrolled: (self.scrolled + SCROLL_STEP) as u32,
            ..self.moved(0, -(SCROLL_STEP as int))
        }
    }

    /// The page scrolled up by one step.
    pub open spec fn scrolled_up(self) -> PageView {
        PageView {
            scrolled: (self.scrolled - SCROLL_STEP) as u32,
            ..self.moved(0, SCROLL_STEP as int)
        }
    }

    /// The page made visible or not: where that is a change, the page is
    /// moved by its own width, to the right to leave the screen and back to
    /// the left to return to it.
    pub open spec fn shown(self, visible: bool) -> PageView {
        if visible == self.visible {
            self
        } else if visible {
            PageView { visible, ..self.moved(-(self.plane.dim_x as int), 0) }
        } else {
            PageView { visible, ..self.moved(self.plane.dim_x as int, 0) }
        }
    }

    /// What the posts of the page draw, from the top.
    pub open spec fn drawing(self, prefs: TuiPrefs) -> Seq<PostDrawingView> {
        self.posts.map_values(|p: PostView| post_drawing(p, prefs))
    }

    /// Whether the page is too full to take another post.
    pub open spec fn full(self) -> bool {
        self.content_len + POST_ROWS > i32::MAX
    }

    /// The page with a post of `data` below its posts.
    pub open spec fn with_post(self, prefs: TuiPrefs, data: PostDataView) -> PageView {
        PageView {
            posts: self.posts.push(
                PostView {
                    data,
                    ..fresh_post(
                        prefs,
                        0,
                        self.content_len as i32,
                        self.plane.dim_x,
                        self.plane.dim_y,
                    )
                }.moved(self.shift(), -self.scrolled),
            ),
            content_len: (self.content_len + POST_ROWS) as u32,
            ..self
        }
    }
}

/// The page that `SubListPage::new` makes: at `(x, y)`, visible, not
/// scrolled, without posts, in the highlight colours of the theme.
pub open spec fn fresh_page(prefs: TuiPrefs, x: i32, y: i32, dim_x: u32, dim_y: u32) -> PageView {
    PageView {
        home_x: x,
        home_y: y,
        plane: Surface {
            x: x as i64,
            y: y as i64,
            dim_x,
            dim_y,
            channels: Some(Channels { fg: prefs.theme.highlight_fg, bg: prefs.theme.highlight_bg }),
            bold: false,
        },
        posts: Seq::empty(),
        visible: true,
        scrolled: 0,
        content_len: 0,
    }
}

/// A page that meets its invariant lies within reach.
pub proof fn lemma_wf_in_reach(page: PageView)
    requires
        page.wf(),
    ensures
        page.in_reach(),
{
    assert forall|i: int| 0 <= i < page.posts.len() implies (#[trigger] page.posts[i]).in_reach() by {
        assert(page.posts[i].placed(
            i,
            page.shift(),
            -page.scrolled,
            page.plane.dim_x,
            page.plane.dim_y,
        ));
        assert(POST_ROWS * i <= POST_ROWS * page.posts.len()) by (nonlinear_arith)
            requires
                0 <= i < page.posts.len(),
        ;
    }
}

/// Scrolling and showing keep the invariant of a page.
pub proof fn lemma_moves_keep_wf(page: PageView, visible: bool)
    requires
        page.wf(),
    ensures
        !page.at_bottom() ==> page.scrolled_down().wf(),
        !page.at_top() ==> page.scrolled_up().wf(),
        page.shown(visible).wf(),
{
    if !page.at_bottom() {
        let after = page.scrolled_down();
        assert forall|i: int| 0 <= i < after.posts.len() implies (#[trigger] after.posts[i]).placed(
            i,
            after.shift(),
            -after.scrolled,
            after.plane.dim_x,
            after.plane.dim_y,
        ) by {
            assert(page.posts[i].placed(
                i,
                page.shift(),
                -page.scrolled,
                page.plane.dim_x,
                page.plane.dim_y,
            ));
        }
    }
    if !page.at_top() {
        let after = page.scrolled_up();
        assert(page.scrolled >= SCROLL_STEP);
        assert forall|i: int| 0 <= i < after.posts.len() implies (#[trigger] after.posts[i]).placed(
            i,
            after.shift(),
            -after.scrolled,
            after.plane.dim_x,
            after.plane.dim_y,
        ) by {
            assert(page.posts[i].placed(
                i,
                page.shift(),
                -page.scrolled,
                page.plane.dim_x,
                page.plane.dim_y,
            ));
        }
    }
    let after = page.shown(visible);
    assert forall|i: int| 0 <= i < after.posts.len() implies (#[trigger] after.posts[i]).placed(
        i,
        after.shift(),
        -after.scrolled,
        after.plane.dim_x,
        after.plane.dim_y,
    ) by {
        assert(page.posts[i].placed(
            i,
            page.shift(),
            -page.scrolled,
            page.plane.dim_x,
            page.plane.dim_y,
        ));
    }
}

/// Moving a page, by scrolling or by showing, changes nothing of what it
/// draws.
pub proof fn lemma_moves_keep_drawing(page: PageView, prefs: TuiPrefs, visible: bool)
    ensures
        page.scrolled_down().drawing(prefs) == page.drawing(prefs),
        page.scrolled_up().drawing(prefs) == page.drawing(prefs),
        page.shown(visible).drawing(prefs) == page.drawing(prefs),
{
    assert(page.scrolled_down().drawing(prefs) =~= page.drawing(prefs));
    assert(page.scrolled_up().drawing(prefs) =~= page.drawing(prefs));
    assert(page.shown(visible).drawing(prefs) =~= page.drawing(prefs));
}

impl View for SubListPage {
    type V = PageView;

    closed spec fn view(&self) -> PageView {
        PageView {
            home_x: self.home_x,
            home_y: self.home_y,
            plane: self.plane,
            posts: self.posts@.map_values(|p: SubListPost| p@),
            visible: self.visible,
            scrolled: self.scrolled,
            content_len: self.content_len,
        }
    }
}

impl SubListPage {
    /// A page without posts at `(x, y)` of its parent.
    pub fn new(tui_prefs: &TuiPrefs, x: i32, y: i32, dim_x: u32, dim_y: u32) -> (made: SubListPage)
        ensures
            made@ == fresh_page(*tui_prefs, x, y, dim_x, dim_y),
            made@.wf(),
    {
        let plane = Surface::painted(
            x as i64,
            y as i64,
            dim_x,
            dim_y,
            tui_prefs.theme.highlight_fg,
            tui_prefs.theme.highlight_bg,
            false,
        );
        let page = SubListPage {
            plane,
            posts: Vec::new(),
            visible: true,
            scrolled: 0,
            content_len: 0,
            home_x: x,
            home_y: y,
        };
        assert(page@.posts =~= Seq::<PostView>::empty());
        page
    }

    /// Whether the page is on the screen.
    pub fn is_visible(&self) -> (visible: bool)
        ensures
            visible == self@.visible,
    {
        self.visible
    }

    /// The rows that the page is scrolled down by.
    pub fn scrolled(&self) -> (rows: u32)
        ensures
            rows == self@.scrolled,
    {
        self.scrolled
    }

    /// The rows that the posts of the page take.
    pub fn content_len(&self) -> (rows: u32)
        ensures
            rows == self@.content_len,
    {
        self.content_len
    }

    /// The surface of the page.
    pub fn plane(&self) -> (plane: Surface)
        ensures
            plane == self@.plane,
    {
        self.plane
    }

    /// The number of posts on the page.
    pub fn post_count(&self) -> (count: usize)
        ensures
            count == self@.posts.len(),
    {
        self.posts.len()
    }

    /// The post at position `index` from the top.
    pub fn post(&self, index: usize) -> (post: &SubListPost)
        requires
            index < self@.posts.len(),
        ensures
            post@ == self@.posts[index as int],
    {
        &self.posts[index]
    }

    /// Moves the page and its posts, each surface by `dx` columns and `dy`
    /// rows.
    pub fn move_rel_xy(&mut self, dx: i64, dy: i64)
        requires
            old(self)@.in_reach(),
            -REACH <= dx <= REACH,
            -REACH <= dy <= REACH,
        ensures
            final(self)@ == old(self)@.moved(dx as int, dy as int),
    {
        let ghost before = self@;
        self.plane.move_rel(dx, dy);
        let mut i: usize = 0;
        while i < self.posts.len()
            invariant
                i <= self.posts.len(),
                self.posts@.len() == before.posts.len(),
                -REACH <= dx <= REACH,
                -REACH <= dy <= REACH,
                before.in_reach(),
                self@ == (PageView { posts: self@.posts, ..before.moved(dx as int, dy as int) }),
                forall|j: int| 0 <= j < i ==> (#[trigger] self.posts@[j])@ == before.posts[j].moved(
                    dx as int,
                    dy as int,
                ),
                forall|j: int|
                    i <= j < self.posts@.len() ==> (#[trigger] self.posts@[j])@ == before.posts[j],
            decreases self.posts.len() - i,
        {
            assert(self.posts@[i as int]@ == before.posts[i as int]);
            assert(before.posts[i as int].in_reach());
            self.posts[i].move_rel_xy(dx, dy);
            i += 1;
        }
        assert(self@.posts =~= before.moved(dx as int, dy as int).posts);
    }

    /// Puts the page on the screen or takes it off.
    pub fn set_visibility(&mut self, visible: bool)
        requires
            old(self)@.wf(),
        ensures
            final(self)@ == old(self)@.shown(visible),
            final(self)@.wf(),
    {
        proof {
            lemma_wf_in_reach(self@);
            lemma_moves_keep_wf(self@, visible);
        }
        if visible != self.visible {
            let width: i64 = self.plane.dim_x as i64;
            if visible {
                self.move_rel_xy(-width, 0);
            } else {
                self.move_rel_xy(width, 0);
            }
            self.visible = visible;
        }
    }

    /// Scrolls the page down by one step, unless it is at its bottom.
    pub fn scroll_down(&mut self) -> (done: Result<(), PageError>)
        requires
            old(self)@.wf(),
        ensures
            final(self)@.wf(),
            done is Err <==> old(self)@.at_bottom(),
            done is Err ==> done->Err_0 == PageError::BottomReached && final(self)@ == old(self)@,
            done is Ok ==> final(self)@ == old(self)@.scrolled_down(),
            done is Ok ==> final(self)@.scrolled == old(self)@.scrolled + SCROLL_STEP,
    {
        proof {
            lemma_wf_in_reach(self@);
            lemma_moves_keep_wf(self@, self@.visible);
        }
        if self.content_len == 0 || self.scrolled as u64 + self.plane.dim_y as u64
            >= self.content_len as u64 - 1 {
            return Err(PageError::BottomReached);
        }
        self.scrolled = self.scrolled + SCROLL_STEP;
        self.move_rel_xy(0, -(SCROLL_STEP as i64));
        Ok(())
    }

    /// Scrolls the page up by one step, unless it is at its top.
    pub fn scroll_up(&mut self) -> (done: Result<(), PageError>)
        requires
            old(self)@.wf(),
        ensures
            final(self)@.wf(),
            done is Err <==> old(self)@.at_top(),
            done is Err ==> done->Err_0 == PageError::TopReached && final(self)@ == old(self)@,
            done is Ok ==> final(self)@ == old(self)@.scrolled_up(),
            done is Ok ==> final(self)@.scrolled == old(self)@.scrolled - SCROLL_STEP,
    {
        proof {
            lemma_wf_in_reach(self@);
            lemma_moves_keep_wf(self@, self@.visible);
        }
        if self.scrolled == 0 {
            return Err(PageError::TopReached);
        }
        self.scrolled = self.scrolled - SCROLL_STEP;
        self.move_rel_xy(0, SCROLL_STEP as i64);
        Ok(())
    }

    /// Puts a post of `data` below the posts of the page, unless the page
    /// is full.
    pub fn add_post(&mut self, tui_prefs: &TuiPrefs, data: PostData) -> (done: Result<
        (),
        PageError,
    >)
        requires
            old(self)@.wf(),
        ensures
            final(self)@.wf(),
            done is Err <==> old(self)@.full(),
            done is Err ==> done->Err_0 == PageError::TooManyPosts && final(self)@ == old(self)@,
            done is Ok ==> final(self)@ == old(self)@.with_post(*tui_prefs, data@),
    {
        if self.content_len > i32::MAX as u32 - POST_ROWS {
            return Err(PageError::TooManyPosts);
        }
        let ghost before = self@;
        let mut post = SubListPost::new(
            tui_prefs,
            0,
            self.content_len as i32,
            self.plane.dim_x,
            self.plane.dim_y,
        );
        post.set_contents(data);
        let dx: i64 = if self.visible {
            0
        } else {
            self.plane.dim_x as i64
        };
        post.move_rel_xy(dx, -(self.scrolled as i64));
        self.posts.push(post);
        self.content_len = self.content_len + POST_ROWS;
        proof {
            let after = self@;
            assert(after.posts =~= before.with_post(*tui_prefs, data@).posts);
            assert forall|i: int| 0 <= i < after.posts.len() implies (
            #[trigger] after.posts[i]).placed(
                i,
                after.shift(),
                -after.scrolled,
                after.plane.dim_x,
                after.plane.dim_y,
            ) by {
                if i < before.posts.len() {
                    assert(before.posts[i].placed(
                        i,
                        before.shift(),
                        -before.scrolled,
                        before.plane.dim_x,
                        before.plane.dim_y,
                    ));
                }
            }
        }
        Ok(())
    }

    /// What the posts of the page draw, from the top.
    pub fn draw(&self, tui_prefs: &TuiPrefs) -> (drawings: Vec<PostDrawing>)
        ensures
            drawings_view(drawings@) == self@.drawing(*tui_prefs),
    {
        let mut drawings: Vec<PostDrawing> = Vec::new();
        let mut i: usize = 0;
        while i < self.posts.len()
            invariant
                i <= self.posts.len(),
                drawings@.len() == i,
                forall|j: int|
                    0 <= j < i ==> (#[trigger] drawings@[j])@ == post_drawing(
                        self.posts@[j]@,
                        *tui_prefs,
                    ),
            decreases self.posts.len() - i,
        {
            let drawing = self.posts[i].draw(tui_prefs);
            drawings.push(drawing);
            i += 1;
        }
        assert(drawings_view(drawings@) =~= self@.drawing(*tui_prefs));
        drawings
    }

    /// Fetches the posts of the page. Nothing is fetched yet: the page
    /// stays as it is.
    pub fn fetch(&mut self)
        ensures
            final(self)@ == old(self)@,
    {
    }
}

} // verus!
