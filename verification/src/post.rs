//! A post of a listing: its data, its four surfaces and what it draws.

use crate::prefs::TuiPrefs;
use crate::surface::Channels;
use crate::surface::Surface;
use crate::surface::REACH;
use crate::text::clip;
use crate::text::clipped;
use crate::text::decimal;
use crate::text::decimal_digits;
use vstd::prelude::*;
use vstd::string::StrSliceExecFns;

verus! {

/// The rows that a post takes in its listing.
pub const POST_ROWS: u32 = 5;

/// The rows of the body of a post.
pub const BODY_ROWS: u32 = 3;

/// The columns kept for the count of upvotes.
pub const UPVOTE_COLS: u32 = 7;

/// The columns kept for the name of the user.
pub const USERNAME_COLS: u32 = 16;

/// The columns kept for the count of comments.
pub const COMMENT_COLS: u32 = 8;

/// What a post shows.
#[derive(Clone, Debug, PartialEq, Eq)]
pub struct PostData {
    pub upvotes: u32,
    pub heading: String,
    pub body: String,
    pub content: String,
    pub username: String,
    pub subreddit_name: String,
    pub comments: u32,
}

/// The mathematical form of `PostData`.
pub struct PostDataView {
    pub upvotes: u32,
    pub heading: Seq<char>,
    pub body: Seq<char>,
    pub content: Seq<char>,
    pub username: Seq<char>,
    pub subreddit_name: Seq<char>,
    pub comments: u32,
}

impl View for PostData {
    type V = PostDataView;

    open spec fn view(&self) -> PostDataView {
        PostDataView {
            upvotes: self.upvotes,
            heading: self.heading@,
            body: self.body@,
            content: self.content@,
            username: self.username@,
            subreddit_name: self.subreddit_name@,
            comments: self.comments,
        }
    }
}

/// A post of a listing: a surface of its own and, within it, one row of
/// header, one row of heading and the rows of the body.
#[derive(Debug)]
pub struct SubListPost {
    plane: Surface,
    hdr_plane: Surface,
    hdg_plane: Surface,
    body_plane: Surface,
    data: PostData,
}

/// The mathematical form of a post.
pub struct PostView {
    pub plane: Surface,
    pub hdr_plane: Surface,
    pub hdg_plane: Surface,
    pub body_plane: Surface,
    pub data: PostDataView,
}

/// A text and the column of its row at which it begins.
#[derive(Debug, PartialEq, Eq)]
pub struct PlacedText {
    pub col: u32,
    pub text: String,
}

/// The header row of a post as it is drawn.
#[derive(Debug, PartialEq, Eq)]
pub struct HeaderRow {
    pub upvotes: PlacedText,
    pub username: PlacedText,
    pub subreddit: PlacedText,
    pub comments: PlacedText,
    /// The columns from the left edge that take the colours of `stain`.
    pub stain_cols: u32,
    pub stain: Channels,
}

/// The mathematical form of a header row: each text with its column.
pub struct HeaderRowView {
    pub upvotes: (u32, Seq<char>),
    pub username: (u32, Seq<char>),
    pub subreddit: (u32, Seq<char>),
    pub comments: (u32, Seq<char>),
    pub stain_cols: u32,
    pub stain: Channels,
}

impl View for HeaderRow {
    type V = HeaderRowView;

    open spec fn view(&self) -> HeaderRowView {
        HeaderRowView {
            upvotes: (self.upvotes.col, self.upvotes.text@),
            username: (self.username.col, self.username.text@),
            subreddit: (self.subreddit.col, self.subreddit.text@),
            comments: (self.comments.col, self.comments.text@),
            stain_cols: self.stain_cols,
            stain: self.stain,
        }
    }
}

/// What a post draws: its header row, its heading and its body.
#[derive(Debug, PartialEq, Eq)]
pub struct PostDrawing {
    pub header: HeaderRow,
    pub heading: String,
    pub body: String,
}

/// The mathematical form of what a post draws.
pub struct PostDrawingView {
    pub header: HeaderRowView,
    pub heading: Seq<char>,
    pub body: Seq<char>,
}

impl View for PostDrawing {
    type V = PostDrawingView;

    open spec fn view(&self) -> PostDrawingView {
        PostDrawingView { header: self.header@, heading: self.heading@, body: self.body@ }
    }
}

/// The views of drawings, in their order.
pub open spec fn drawings_view(drawings: Seq<PostDrawing>) -> Seq<PostDrawingView> {
    drawings.map_values(|d: PostDrawing| d@)
}

/// The column at which the count of comments begins on a row of `dim_x`
/// columns: `COMMENT_COLS - 1` columns before the right edge, or the left
/// edge where the row is narrower.
pub open spec fn comments_col(dim_x: u32) -> u32 {
    if dim_x >= COMMENT_COLS - 1 {
        (dim_x - (COMMENT_COLS - 1)) as u32
    } else {
        0
    }
}

/// What is left of `text` on a row of `dim_x` columns when it begins at
/// column `col`.
pub open spec fn fitted(text: Seq<char>, col: u32, dim_x: u32) -> Seq<char> {
    clipped(
        text,
        if dim_x >= col {
            (dim_x - col) as nat
        } else {
            0
        },
    )
}

/// The header row of a post on a surface of `dim_x` columns: the upvotes at
/// the left edge, the user behind the columns of the upvotes, the subreddit
/// behind the columns of the user, the comments at the right; each text cut
/// off at the right edge, the user's name after `USERNAME_COLS` characters.
pub open spec fn header_row(data: PostDataView, dim_x: u32, prefs: TuiPrefs) -> HeaderRowView {
    HeaderRowView {
        upvotes: (0, fitted(decimal_digits(data.upvotes as nat), 0, dim_x)),
        username: (
            (UPVOTE_COLS + 1) as u32,
            fitted(clipped(data.username, USERNAME_COLS as nat), (UPVOTE_COLS + 1) as u32, dim_x),
        ),
        subreddit: (
            (UPVOTE_COLS + USERNAME_COLS + 2) as u32,
            fitted(data.subreddit_name, (UPVOTE_COLS + USERNAME_COLS + 2) as u32, dim_x),
        ),
        comments: (
            comments_col(dim_x),
            fitted(decimal_digits(data.comments as nat), comments_col(dim_x), dim_x),
        ),
        stain_cols: (UPVOTE_COLS - 1) as u32,
        stain: Channels { fg: prefs.theme.post_upvoted_fg, bg: prefs.theme.post_upvoted_bg },
    }
}

/// What a post draws: its header row; its heading, cut off at the right
/// edge of its row; and its body, cut off where its rows are full.
pub open spec fn post_drawing(post: PostView, prefs: TuiPrefs) -> PostDrawingView {
    PostDrawingView {
        header: header_row(post.data, post.hdr_plane.dim_x, prefs),
        heading: fitted(post.data.heading, 0, post.hdg_plane.dim_x),
        body: clipped(post.data.body, (post.body_plane.dim_x * post.body_plane.dim_y) as nat),
    }
}

/// `text` cut off at the right edge of a row of `dim_x` columns, where it
/// begins at column `col`.
fn fit(text: &str, col: u32, dim_x: u32) -> (cut: String)
    ensures
        cut@ == fitted(text@, col, dim_x),
{
    let room: u32 = if dim_x >= col {
        dim_x - col
    } else {
        0
    };
    clip(text, room as usize)
}

impl PostView {
    /// The post with each of its surfaces moved by `dx` columns and `dy` rows.
    pub open spec fn moved(self, dx: int, dy: int) -> PostView {
        PostView {
            plane: self.plane.moved(dx, dy),
            hdr_plane: self.hdr_plane.moved(dx, dy),
            hdg_plane: self.hdg_plane.moved(dx, dy),
            body_plane: self.body_plane.moved(dx, dy),
            data: self.data,
        }
    }

    /// Whether each surface of the post lies within `REACH` of the origin.
    pub open spec fn in_reach(self) -> bool {
        &&& self.plane.in_reach()
        &&& self.hdr_plane.in_reach()
        &&& self.hdg_plane.in_reach()
        &&& self.body_plane.in_reach()
    }

    /// Whether the post is the one at position `index` of a listing that is
    /// `dim_x` wide and `dim_y` high, and that has moved its posts by `dx`
    /// columns and `dy` rows in all.
    pub open spec fn placed(self, index: int, dx: int, dy: int, dim_x: u32, dim_y: u32) -> bool {
        &&& self.plane.x == dx
        &&& self.plane.y == POST_ROWS * index + dy
        &&& self.plane.dim_x == dim_x
        &&& self.plane.dim_y == dim_y
        &&& self.hdr_plane.x == dx
        &&& self.hdr_plane.y == dy
        &&& self.hdr_plane.dim_x == dim_x
        &&& self.hdr_plane.dim_y == 1
        &&& self.hdg_plane.x == dx
        &&& self.hdg_plane.y == 1 + dy
        &&& self.hdg_plane.dim_x == dim_x
        &&& self.hdg_plane.dim_y == 1
        &&& self.body_plane.x == dx
        &&& self.body_plane.y == 2 + dy
        &&& self.body_plane.dim_x == dim_x
        &&& self.body_plane.dim_y == BODY_ROWS
    }
}

/// The post that `SubListPost::new` makes: its surface at `(x, y)`, the
/// header in its first row, the heading, bold, in its second, the body
/// below; each in the colours that the theme gives it; and nothing to show.
pub open spec fn fresh_post(prefs: TuiPrefs, x: i32, y: i32, dim_x: u32, dim_y: u32) -> PostView {
    PostView {
        plane: Surface { x: x as i64, y: y as i64, dim_x, dim_y, channels: None, bold: false },
        hdr_plane: Surface {
            x: 0,
            y: 0,
            dim_x,
            dim_y: 1,
            channels: Some(
                Channels { fg: prefs.theme.post_header_fg, bg: prefs.theme.post_header_bg },
            ),
            bold: false,
        },
        hdg_plane: Surface {
            x: 0,
            y: 1,
            dim_x,
            dim_y: 1,
            channels: Some(
                Channels { fg: prefs.theme.post_heading_fg, bg: prefs.theme.post_heading_bg },
            ),
            bold: true,
        },
        body_plane: Surface {
            x: 0,
            y: 2,
            dim_x,
            dim_y: BODY_ROWS,
            channels: Some(Channels { fg: prefs.theme.post_body_fg, bg: prefs.theme.post_body_bg }),
            bold: false,
        },
        data: PostDataView {
            upvotes: 0,
            heading: Seq::empty(),
            body: Seq::empty(),
            content: Seq::empty(),
            username: Seq::empty(),
            subreddit_name: Seq::empty(),
            comments: 0,
        },
    }
}

impl View for SubListPost {
    type V = PostView;

    closed spec fn view(&self) -> PostView {
        PostView {
            plane: self.plane,
            hdr_plane: self.hdr_plane,
            hdg_plane: self.hdg_plane,
            body_plane: self.body_plane,
            data: self.data@,
        }
    }
}

impl SubListPost {
    /// A post without contents, with its surface at `(x, y)` of its parent.
    pub fn new(tui_prefs: &TuiPrefs, x: i32, y: i32, dim_x: u32, dim_y: u32) -> (made: SubListPost)
        ensures
            made@ == fresh_post(*tui_prefs, x, y, dim_x, dim_y),
    {
        let theme = &tui_prefs.theme;
        let plane = Surface::new(x as i64, y as i64, dim_x, dim_y);
        let body_plane = Surface::painted(
            0,
            2,
            dim_x,
            BODY_ROWS,
            theme.post_body_fg,
            theme.post_body_bg,
            false,
        );
        let hdr_plane = Surface::painted(
            0,
            0,
            dim_x,
            1,
            theme.post_header_fg,
            theme.post_header_bg,
            false,
        );
        let hdg_plane = Surface::painted(
            0,
            1,
            dim_x,
            1,
            theme.post_heading_fg,
            theme.post_heading_bg,
            true,
        );
        SubListPost {
            plane,
            hdr_plane,
            hdg_plane,
            body_plane,
            data: PostData {
                upvotes: 0,
                heading: String::new(),
                body: String::new(),
                content: String::new(),
                username: String::new(),
                subreddit_name: String::new(),
                comments: 0,
            },
        }
    }

    /// The surface of the post.
    pub fn plane(&self) -> (plane: Surface)
        ensures
            plane == self@.plane,
    {
        self.plane
    }

    /// The surface of the header row.
    pub fn hdr_plane(&self) -> (plane: Surface)
        ensures
            plane == self@.hdr_plane,
    {
        self.hdr_plane
    }

    /// The surface of the heading.
    pub fn hdg_plane(&self) -> (plane: Surface)
        ensures
            plane == self@.hdg_plane,
    {
        self.hdg_plane
    }

    /// The surface of the body.
    pub fn body_plane(&self) -> (plane: Surface)
        ensures
            plane == self@.body_plane,
    {
        self.body_plane
    }

    /// What the post shows.
    pub fn data(&self) -> (data: &PostData)
        ensures
            data@ == self@.data,
    {
        &self.data
    }

    /// Gives the post what it shows.
    pub fn set_contents(&mut self, data: PostData)
        ensures
            final(self)@ == (PostView { data: data@, ..old(self)@ }),
    {
        self.data = data;
    }

    /// Moves the post, each of its surfaces by `dx` columns and `dy` rows.
    pub fn move_rel_xy(&mut self, dx: i64, dy: i64)
        requires
            old(self)@.in_reach(),
            -REACH <= dx <= REACH,
            -REACH <= dy <= REACH,
        ensures
            final(self)@ == old(self)@.moved(dx as int, dy as int),
    {
        self.plane.move_rel(dx, dy);
        self.hdr_plane.move_rel(dx, dy);
        self.hdg_plane.move_rel(dx, dy);
        self.body_plane.move_rel(dx, dy);
    }

    /// The header row of the post.
    pub fn draw_header(&self, tui_prefs: &TuiPrefs) -> (row: HeaderRow)
        ensures
            row@ == header_row(self@.data, self@.hdr_plane.dim_x, *tui_prefs),
    {
        let dim_x = self.hdr_plane.dim_x;
        let upvotes = decimal(self.data.upvotes as u64);
        let comments = decimal(self.data.comments as u64);
        let username = clip(self.data.username.as_str(), USERNAME_COLS as usize);
        let comments_at: u32 = if dim_x >= COMMENT_COLS - 1 {
            dim_x - (COMMENT_COLS - 1)
        } else {
            0
        };
        HeaderRow {
            upvotes: PlacedText { col: 0, text: fit(upvotes.as_str(), 0, dim_x) },
            username: PlacedText {
                col: UPVOTE_COLS + 1,
                text: fit(username.as_str(), UPVOTE_COLS + 1, dim_x),
            },
            subreddit: PlacedText {
                col: UPVOTE_COLS + USERNAME_COLS + 2,
                text: fit(self.data.subreddit_name.as_str(), UPVOTE_COLS + USERNAME_COLS + 2, dim_x),
            },
            comments: PlacedText { col: comments_at, text: fit(comments.as_str(), comments_at, dim_x) },
            stain_cols: UPVOTE_COLS - 1,
            stain: Channels {
                fg: tui_prefs.theme.post_upvoted_fg,
                bg: tui_prefs.theme.post_upvoted_bg,
            },
        }
    }

    /// The heading of the post, cut off at the right edge of its row.
    pub fn draw_heading(&self) -> (text: String)
        ensures
            text@ == fitted(self@.data.heading, 0, self@.hdg_plane.dim_x),
    {
        fit(self.data.heading.as_str(), 0, self.hdg_plane.dim_x)
    }

    /// The body of the post, cut off where its rows are full.
    pub fn draw_body(&self) -> (text: String)
        ensures
            text@ == clipped(
                self@.data.body,
                (self@.body_plane.dim_x * self@.body_plane.dim_y) as nat,
            ),
    {
        let dim_x = self.body_plane.dim_x as u64;
        let dim_y = self.body_plane.dim_y as u64;
        assert(dim_x * dim_y <= 0xffff_ffff * 0xffff_ffff) by (nonlinear_arith)
            requires
                dim_x <= 0xffff_ffff,
                dim_y <= 0xffff_ffff,
        ;
        let cells: u64 = dim_x * dim_y;
        let body = self.data.body.as_str();
        if cells >= body.unicode_len() as u64 {
            body.to_owned()
        } else {
            clip(body, cells as usize)
        }
    }

    /// What the post draws.
    pub fn draw(&self, tui_prefs: &TuiPrefs) -> (drawing: PostDrawing)
        ensures
            drawing@ == post_drawing(self@, *tui_prefs),
    {
        PostDrawing {
            header: self.draw_header(tui_prefs),
            heading: self.draw_heading(),
            body: self.draw_body(),
        }
    }
}

} // verus!
