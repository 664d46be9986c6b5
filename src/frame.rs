//! What one frame of the render loop is made of: the context handed to the
//! update logic, the drawable group it returns, and the text written out.
use vstd::prelude::*;
use crate::ansi::{
    decimal, decimal_string, fg_rgb, fg_seq, goto, goto_seq, hide_cursor, hide_cursor_seq,
};
use crate::event::{exit_key, is_exit_event, Event};
use crate::pixel::Pixel;

verus! {

/// The terminal's size in cells.
#[derive(Clone, Copy, Debug, PartialEq, Eq, Structural)]
pub struct Size {
    pub width: u16,
    pub height: u16,
}

impl From<(u16, u16)> for Size {
    fn from(size: (u16, u16)) -> (r: Size) {
        Size { width: size.0, height: size.1 }
    }
}

impl vstd::std_specs::convert::FromSpecImpl<(u16, u16)> for Size {
    open spec fn obeys_from_spec() -> bool {
        true
    }

    open spec fn from_spec(size: (u16, u16)) -> Size {
        Size { width: size.0, height: size.1 }
    }
}

/// What the update logic sees of the current frame.
#[derive(Clone, Copy, Debug, PartialEq, Eq, Structural)]
pub struct Context {
    /// The terminal's size, taken once when the loop starts.
    pub console_size: Size,
    /// The rate the previous frame achieved; the time step is its reciprocal,
    /// or zero when it is zero.
    pub last_fps: u32,
    /// The event read in this frame, if one was pending and it did not end
    /// the loop.
    pub event: Option<Event>,
}

impl Context {
    /// The context before the loop starts: no size, no rate, no event.
    pub fn new() -> (c: Context)
        ensures
            c == (Context {
                console_size: Size { width: 0, height: 0 },
                last_fps: 0,
                event: None,
            }),
    {
        Context { console_size: Size { width: 0, height: 0 }, last_fps: 0, event: None }
    }
}

/// The pixels one update hands back: one borrowed pixel, or a borrowed run of
/// them drawn in order.
pub enum Group<'a, T> {
    Single(&'a T),
    Multi(&'a [T]),
}

/// The pixels of a group, in drawing order.
pub open spec fn group_pixels(g: Group<Pixel>) -> Seq<Pixel> {
    match g {
        Group::Single(p) => seq![*p],
        Group::Multi(ps) => ps@,
    }
}

/// The escape-sequence text of a run of pixels: each pixel's, in order.
pub open spec fn render_seq(ps: Seq<Pixel>) -> Seq<char>
    decreases ps.len(),
{
    if ps.len() == 0 {
        Seq::empty()
    } else {
        render_seq(ps.drop_last()) + ps.last().render_view()
    }
}

/// Every pixel of the run can be drawn.
pub open spec fn all_drawable(ps: Seq<Pixel>) -> bool {
    forall|i: int| 0 <= i < ps.len() ==> (#[trigger] ps[i]).drawable()
}

/// The text of a run of pixels, built pixel by pixel.
fn render_slice(ps: &[Pixel]) -> (s: String)
    requires
        all_drawable(ps@),
    ensures
        s@ == render_seq(ps@),
{
    let mut s = String::new();
    let mut i: usize = 0;
    while i < ps.len()
        invariant
            i <= ps@.len(),
            all_drawable(ps@),
            s@ == render_seq(ps@.subrange(0, i as int)),
        decreases ps@.len() - i,
    {
        let px = ps[i].to_string();
        s.append(px.as_str());
        proof {
            let next = ps@.subrange(0, i + 1);
            assert(next.drop_last() =~= ps@.subrange(0, i as int));
        }
        i = i + 1;
    }
    assert(ps@.subrange(0, ps@.len() as int) =~= ps@);
    s
}

/// The text of a group: a single pixel is drawn straight, without building a
/// run; a run is drawn pixel by pixel in order.
pub fn render_group(g: &Group<Pixel>) -> (s: String)
    requires
        all_drawable(group_pixels(*g)),
    ensures
        s@ == render_seq(group_pixels(*g)),
{
    match g {
        Group::Single(px) => {
            assert(group_pixels(*g)[0] == **px);
            let s = px.to_string();
            proof {
                let one = seq![**px];
                assert(one.drop_last() =~= Seq::<Pixel>::empty());
                assert(render_seq(one.drop_last()) == Seq::<char>::empty());
                assert(one.last() == **px);
                assert(render_seq(one) =~= (**px).render_view());
            }
            s
        },
        Group::Multi(pxs) => render_slice(pxs),
    }
}

/// A single pixel and a run that holds just that pixel render to the same
/// text.
pub proof fn single_renders_as_multi(single: Group<Pixel>, multi: Group<Pixel>)
    requires
        single matches Group::Single(p) && multi matches Group::Multi(ps) && ps@ == seq![*p],
    ensures
        render_seq(group_pixels(single)) == render_seq(group_pixels(multi)),
{
}

/// Pixels held by value, drawn in order.
pub struct Drawable {
    pub pixels: Vec<Pixel>,
}

impl Drawable {
    /// The pixels as a group that borrows them.
    pub fn as_group(&self) -> (g: Group<Pixel>)
        ensures
            g matches Group::Multi(ps) && ps@ == self.pixels@,
    {
        Group::Multi(self.pixels.as_slice())
    }

    /// The text of all the pixels, in order.
    pub fn to_string(&self) -> (s: String)
        requires
            all_drawable(self.pixels@),
        ensures
            s@ == render_seq(self.pixels@),
    {
        render_slice(self.pixels.as_slice())
    }
}

impl From<Vec<Pixel>> for Drawable {
    fn from(pixels: Vec<Pixel>) -> (r: Drawable) {
        Drawable { pixels }
    }
}

impl vstd::std_specs::convert::FromSpecImpl<Vec<Pixel>> for Drawable {
    open spec fn obeys_from_spec() -> bool {
        true
    }

    open spec fn from_spec(pixels: Vec<Pixel>) -> Drawable {
        Drawable { pixels }
    }
}

/// The fixed text of the status line, before the achieved rate.
pub const STATUS_PREFIX: &'static str = "CTRL + Q to exit - FPS: ";

/// `n` spaces.
pub open spec fn spaces(n: nat) -> Seq<char> {
    Seq::new(n, |_i: int| ' ')
}

/// The row of the status line: the terminal's last one.
pub open spec fn last_row(height: u16) -> nat {
    if height > 0 {
        (height - 1) as nat
    } else {
        0
    }
}

/// The colour of the achieved rate on the status line.
pub open spec fn status_color_seq() -> Seq<char> {
    fg_seq(150, 255, 120)
}

/// The part of every frame that depends on the terminal's size alone: hide
/// the cursor, jump to the top, blank the whole scene, jump to the last line,
/// write the status text and switch to its colour.
pub open spec fn frame_head(size: Size) -> Seq<char> {
    hide_cursor_seq() + goto_seq(0, 0) + spaces(size.width as nat * size.height as nat)
        + goto_seq(0, last_row(size.height)) + STATUS_PREFIX@ + status_color_seq()
}

/// The optional interface text, or nothing.
pub open spec fn ui_view(ui: Option<String>) -> Seq<char> {
    match ui {
        Some(t) => t@,
        None => Seq::empty(),
    }
}

/// A whole frame: the head, the achieved rate in decimal, the interface text
/// and the drawn pixels.
pub open spec fn frame_view(size: Size, fps: u32, ui: Option<String>, draws: Seq<char>) -> Seq<
    char,
> {
    frame_head(size) + decimal(fps as nat) + ui_view(ui) + draws
}

/// `n` spaces as a string.
fn blank(n: usize) -> (s: String)
    ensures
        s@ == spaces(n as nat),
{
    let mut s = String::new();
    let mut i: usize = 0;
    while i < n
        invariant
            i <= n,
            s@ =~= spaces(i as nat),
        decreases n - i,
    {
        proof {
            reveal_strlit(" ");
        }
        s.append(" ");
        i = i + 1;
    }
    s
}

/// The text every frame starts with, built once for a terminal size.
pub struct Scene {
    pub size: Size,
    pub head: String,
}

impl Scene {
    /// The head matches the size.
    pub open spec fn wf(&self) -> bool {
        self.head@ == frame_head(self.size)
    }

    /// The scene for a terminal of the given size.
    pub fn new(size: Size) -> (sc: Scene)
        ensures
            sc.wf(),
            sc.size == size,
    {
        let w = size.width as usize;
        let h = size.height as usize;
        assert(w * h <= 65535 * 65535) by (nonlinear_arith)
            requires
                w <= 65535,
                h <= 65535,
        ;
        let mut head = hide_cursor();
        let top = goto(0, 0);
        head.append(top.as_str());
        let empty = blank(w * h);
        head.append(empty.as_str());
        let last = if size.height > 0 {
            size.height - 1
        } else {
            0
        };
        let bottom = goto(0, last);
        head.append(bottom.as_str());
        head.append(STATUS_PREFIX);
        let green = fg_rgb(150, 255, 120);
        head.append(green.as_str());
        Scene { size, head }
    }

    /// One frame's text, to be written out at once.
    pub fn compose(&self, fps: u32, ui: &Option<String>, draws: &str) -> (r: String)
        requires
            self.wf(),
        ensures
            r@ == frame_view(self.size, fps, *ui, draws@),
    {
        let mut r = self.head.clone();
        let rate = decimal_string(fps);
        r.append(rate.as_str());
        match ui {
            Some(t) => r.append(t.as_str()),
            None => {},
        }
        r.append(draws);
        proof {
            if ui.is_none() {
                assert(r@ =~= frame_view(self.size, fps, *ui, draws@));
            }
        }
        r
    }
}

/// What the loop does with a frame, given the event polled for it.
#[derive(Clone, Copy, Debug, PartialEq, Eq, Structural)]
pub enum FrameAction {
    /// The exit combination came: clean up and leave the loop.
    Exit,
    /// Run the update logic with this context.
    Update(Context),
}

/// Decides a frame: the exit combination ends the loop; any other event, or
/// none, goes to the update logic with the terminal size and the previous
/// frame's achieved rate.
pub fn frame_step(console_size: Size, last_fps: u32, polled: Option<Event>) -> (a: FrameAction)
    ensures
        polled == Some(Event::Key(exit_key())) ==> a == FrameAction::Exit,
        polled != Some(Event::Key(exit_key())) ==> a == FrameAction::Update(
            Context { console_size, last_fps, event: polled },
        ),
{
    match polled {
        Some(e) => {
            if is_exit_event(&e) {
                return FrameAction::Exit;
            }
        },
        None => {},
    }
    FrameAction::Update(Context { console_size, last_fps, event: polled })
}

/// The update logic the loop runs once per frame: it gets the frame's context
/// and returns the pixels to draw, with an optional line of interface text.
/// The pixels are borrowed until the frame is drawn.
pub trait EventHandler {
    fn update(&mut self, ctx: &Context) -> (Group<'_, Pixel>, Option<String>);
}

} // verus!
