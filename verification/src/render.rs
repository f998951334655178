//! The render loop: when it stops, what a frame draws and where.

use crate::error::Error;
use crate::labels::Color;
use crate::texture::{lookup, TextureManager, TextureQuery, TextureWithInfo};
use vstd::prelude::*;

verus! {

/// A position on the render target, in pixels.
#[derive(Clone, Copy, Debug, PartialEq, Eq, Structural)]
pub struct Point {
    pub x: i32,
    pub y: i32,
}

/// Where a texture is drawn: the top-left corner and the extent of the
/// destination rectangle.
#[derive(Clone, Copy, Debug, PartialEq, Eq, Structural)]
pub struct Placement {
    pub x: i32,
    pub y: i32,
    pub width: u32,
    pub height: u32,
}

/// One call on the render target. An angle counts hundredths of a degree,
/// and a rotation is about the centre of the destination.
#[derive(Clone, Copy, Debug, PartialEq, Eq, Structural)]
pub enum DrawCommand {
    /// Fill the target with a colour.
    Clear(Color),
    /// Draw the texture of a slot unrotated.
    Copy { id: usize, dst: Placement },
    /// Draw the texture of a slot rotated by `angle`.
    CopyRotated { id: usize, dst: Placement, angle: u64 },
    /// Show the finished frame.
    Present,
}

/// An input event, as far as the loop cares.
#[derive(Clone, Copy, Debug, PartialEq, Eq, Structural)]
pub enum Event {
    Quit,
    Other,
}

/// Whether the loop goes on. `Terminating` is final.
#[derive(Clone, Copy, Debug, PartialEq, Eq, Structural)]
pub enum LoopState {
    Running,
    Terminating,
}

/// The extent of the program's window, in pixels.
pub const WINDOW_WIDTH: u32 = 800;

pub const WINDOW_HEIGHT: u32 = 600;

/// The title of the program's window.
pub const WINDOW_TITLE: &'static str = "RUST TTF";

/// By how many hundredths of a degree the angle grows with each frame.
pub const ANGLE_STEP: u64 = 2;

/// White.
pub open spec fn spec_background() -> Color {
    Color { r: 0xff, g: 0xff, b: 0xff }
}

/// The colour a frame is cleared to.
#[verifier::when_used_as_spec(spec_background)]
pub fn background() -> (c: Color)
    ensures
        c == spec_background(),
{
    Color { r: 0xff, g: 0xff, b: 0xff }
}

/// The `i32` nearest to `v`.
pub open spec fn saturate(v: int) -> i32 {
    if v < i32::MIN {
        i32::MIN
    } else if v > i32::MAX {
        i32::MAX
    } else {
        v as i32
    }
}

/// Where the texture of slot `id` goes, given its dimensions and the centre
/// of the viewport. Slots 0 and 1 have fixed corners. Slot 2 is centred on
/// the viewport and moved by (80, 144); its corner saturates at the bounds
/// of `i32`. Other slots are not drawn.
pub open spec fn spec_placement(id: usize, queried: TextureQuery, center: Point) -> Option<
    Placement,
> {
    if id == 0 {
        Some(Placement { x: 23, y: 404, width: queried.width, height: queried.height })
    } else if id == 1 {
        Some(Placement { x: 323, y: 104, width: queried.width, height: queried.height })
    } else if id == 2 {
        Some(
            Placement {
                x: saturate(center.x - queried.width / 2 + 80),
                y: saturate(center.y - queried.height / 2 + 144),
                width: queried.width,
                height: queried.height,
            },
        )
    } else {
        None
    }
}

/// `base - extent / 2 + shift`, saturated.
fn centered(base: i32, extent: u32, shift: i32) -> (r: i32)
    ensures
        r == saturate(base - extent / 2 + shift),
{
    let v: i64 = base as i64 - (extent / 2) as i64 + shift as i64;
    if v < i32::MIN as i64 {
        i32::MIN
    } else if v > i32::MAX as i64 {
        i32::MAX
    } else {
        v as i32
    }
}

/// Where the texture of slot `id` goes, if the slot is drawn at all.
#[verifier::when_used_as_spec(spec_placement)]
pub fn placement(id: usize, queried: TextureQuery, center: Point) -> (r: Option<Placement>)
    ensures
        r == spec_placement(id, queried, center),
{
    if id == 0 {
        Some(Placement { x: 23, y: 404, width: queried.width, height: queried.height })
    } else if id == 1 {
        Some(Placement { x: 323, y: 104, width: queried.width, height: queried.height })
    } else if id == 2 {
        Some(
            Placement {
                x: centered(center.x, queried.width, 80),
                y: centered(center.y, queried.height, 144),
                width: queried.width,
                height: queried.height,
            },
        )
    } else {
        None
    }
}

/// What a frame draws for slot `id`: nothing where the cache has no entry
/// or the slot has no place, else one copy of the texture at its place,
/// unrotated for slot 0 and rotated by `angle` for the others.
pub open spec fn slot_commands<T>(
    cache: Map<usize, TextureWithInfo<T>>,
    id: usize,
    center: Point,
    angle: u64,
) -> Seq<DrawCommand> {
    match lookup(cache, id) {
        Some(entry) => match spec_placement(id, entry.queried, center) {
            Some(dst) => if id == 0 {
                seq![DrawCommand::Copy { id, dst }]
            } else {
                seq![DrawCommand::CopyRotated { id, dst, angle }]
            },
            None => Seq::empty(),
        },
        None => Seq::empty(),
    }
}

/// The calls of one frame, in order: clear to the background, draw slots
/// 0, 1 and 2 as far as the cache holds them, present.
pub open spec fn frame_commands<T>(
    cache: Map<usize, TextureWithInfo<T>>,
    center: Point,
    angle: u64,
) -> Seq<DrawCommand> {
    seq![DrawCommand::Clear(background())] + slot_commands(cache, 0, center, angle)
        + slot_commands(cache, 1, center, angle) + slot_commands(cache, 2, center, angle)
        + seq![DrawCommand::Present]
}

/// The angle after one more frame: a step further, saturating at the
/// bound of `u64`.
pub open spec fn next_angle(angle: u64) -> u64 {
    if angle + ANGLE_STEP > u64::MAX {
        u64::MAX
    } else {
        (angle + ANGLE_STEP) as u64
    }
}

/// The angle after `frames` more frames.
pub open spec fn angle_after(angle: u64, frames: nat) -> u64
    decreases frames,
{
    if frames == 0 {
        angle
    } else {
        next_angle(angle_after(angle, (frames - 1) as nat))
    }
}

/// The state of the render loop: whether it still runs, and the angle that
/// the rotating slots are drawn at.
#[derive(Debug)]
pub struct RenderLoop {
    state: LoopState,
    angle: u64,
}

impl RenderLoop {
    /// Whether the loop still runs.
    pub closed spec fn spec_state(&self) -> LoopState {
        self.state
    }

    /// The angle of the next frame, in hundredths of a degree.
    pub closed spec fn spec_angle(&self) -> u64 {
        self.angle
    }

    /// A running loop at angle 0.
    pub fn new() -> (render_loop: RenderLoop)
        ensures
            render_loop.state() == LoopState::Running,
            render_loop.angle() == 0,
    {
        RenderLoop { state: LoopState::Running, angle: 0 }
    }

    /// Whether the loop still runs.
    #[verifier::when_used_as_spec(spec_state)]
    pub fn state(&self) -> (s: LoopState)
        ensures
            s == self.spec_state(),
    {
        self.state
    }

    /// The angle of the next frame, in hundredths of a degree.
    #[verifier::when_used_as_spec(spec_angle)]
    pub fn angle(&self) -> (a: u64)
        ensures
            a == self.spec_angle(),
    {
        self.angle
    }

    /// Takes the input events that are pending before a frame. A quit event
    /// among them stops the loop for good; everything else is ignored.
    pub fn poll(&mut self, events: &Vec<Event>) -> (state: LoopState)
        ensures
            state == final(self).state(),
            final(self).angle() == old(self).angle(),
            state == if old(self).state() == LoopState::Terminating || events@.contains(
                Event::Quit,
            ) {
                LoopState::Terminating
            } else {
                LoopState::Running
            },
    {
        let mut i: usize = 0;
        while i < events.len()
            invariant
                i <= events.len(),
                self.angle == old(self).angle,
                self.state == if old(self).state == LoopState::Terminating || events@.take(
                    i as int,
                ).contains(Event::Quit) {
                    LoopState::Terminating
                } else {
                    LoopState::Running
                },
            decreases events.len() - i,
        {
            let ghost seen = events@.take(i as int);
            match events[i] {
                Event::Quit => {
                    self.state = LoopState::Terminating;
                },
                Event::Other => {},
            }
            proof {
                let more = events@.take(i + 1);
                assert(more =~= seen.push(events@[i as int]));
                if seen.contains(Event::Quit) {
                    let k = choose|k: int| 0 <= k < seen.len() && seen[k] == Event::Quit;
                    assert(more[k] == Event::Quit);
                }
                if events@[i as int] == Event::Quit {
                    assert(more[i as int] == Event::Quit);
                }
                if more.contains(Event::Quit) {
                    let k = choose|k: int| 0 <= k < more.len() && more[k] == Event::Quit;
                    if k < i {
                        assert(seen[k] == Event::Quit);
                    }
                }
            }
            i = i + 1;
        }
        assert(events@.take(events.len() as int) =~= events@);
        self.state
    }

    /// One frame. A running loop gives the calls of the frame and moves the
    /// angle one step on. A loop that is terminating draws nothing.
    pub fn frame<'a, C, T>(&mut self, cache: &TextureManager<'a, C, T>, center: Point) -> (commands:
        Vec<DrawCommand>)
        ensures
            final(self).state() == old(self).state(),
            old(self).state() == LoopState::Running ==> {
                &&& commands@ == frame_commands(cache@, center, old(self).angle())
                &&& final(self).angle() == next_angle(old(self).angle())
            },
            old(self).state() == LoopState::Terminating ==> {
                &&& commands@ == Seq::<DrawCommand>::empty()
                &&& final(self).angle() == old(self).angle()
            },
    {
        let mut commands: Vec<DrawCommand> = Vec::new();
        match self.state {
            LoopState::Terminating => {},
            LoopState::Running => {
                commands.push(DrawCommand::Clear(background()));
                draw_slot(&mut commands, cache, 0, center, self.angle);
                draw_slot(&mut commands, cache, 1, center, self.angle);
                draw_slot(&mut commands, cache, 2, center, self.angle);
                commands.push(DrawCommand::Present);
                self.angle = self.angle.saturating_add(ANGLE_STEP);
                assert(commands@ =~= frame_commands(cache@, center, old(self).angle));
            },
        }
        commands
    }

    /// Records that a draw call failed: the loop stops, and the failure is
    /// `Error::Draw` with the message that was reported.
    pub fn fail(&mut self, message: String) -> (e: Error)
        ensures
            e == Error::Draw(message),
            final(self).state() == LoopState::Terminating,
            final(self).angle() == old(self).angle(),
    {
        self.state = LoopState::Terminating;
        Error::Draw(message)
    }
}

/// Appends what a frame draws for slot `id`.
fn draw_slot<'a, C, T>(
    commands: &mut Vec<DrawCommand>,
    cache: &TextureManager<'a, C, T>,
    id: usize,
    center: Point,
    angle: u64,
)
    ensures
        final(commands)@ == old(commands)@ + slot_commands(cache@, id, center, angle),
{
    if let Some(entry) = cache.get_texture(id) {
        if let Some(dst) = placement(id, *entry.get_texture_info_ref(), center) {
            if id == 0 {
                commands.push(DrawCommand::Copy { id, dst });
            } else {
                commands.push(DrawCommand::CopyRotated { id, dst, angle });
            }
        }
    }
    assert(commands@ =~= old(commands)@ + slot_commands(cache@, id, center, angle));
}

/// From angle 0 the angle after `frames` frames is `frames` steps, as long
/// as that fits in `u64`.
pub proof fn lemma_angle_after_frames(frames: nat)
    requires
        frames * ANGLE_STEP <= u64::MAX,
    ensures
        angle_after(0, frames) == frames * ANGLE_STEP,
    decreases frames,
{
    if frames > 0 {
        lemma_angle_after_frames((frames - 1) as nat);
    }
}

} // verus!
