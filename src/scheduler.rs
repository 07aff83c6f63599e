//! The frame scheduler: a state machine that takes one event at a time and
//! answers with the command the platform layer carries out.

use vstd::prelude::*;
use crate::pipeline::{DrawCall, draw_call, quad_draw};
use crate::pixels::{ImageModel, PixelBuffer, valid_image};
use crate::surface::{SurfaceConfig, clamp_extent, fifo_config};
use crate::texture::{ReloadError, TextureSlot, UploadLayout, packed_layout, same_size, mismatch_error};

verus! {

/// Whether the loop still runs.
#[derive(Clone, Copy, Debug, PartialEq, Eq, Structural)]
pub enum Phase {
    Running,
    /// Terminal: the loop ends and no event is handled any more.
    Closing,
}

/// What happens to the loop.
pub enum LoopEvent {
    /// The watched file changed: the image loaded from it, or `None` where
    /// it could not be loaded.
    FileChanged(Option<PixelBuffer>),
    /// The window's client area now has this size.
    Resized { width: u32, height: u32 },
    CloseRequested,
    RedrawRequested,
    /// All pending platform events of this tick have been handled.
    AboutToWait,
    /// Any other platform event.
    Other,
}

impl LoopEvent {
    /// A loaded image in the event is a valid one.
    pub open spec fn wf(&self) -> bool {
        match self {
            LoopEvent::FileChanged(Some(image)) => image.wf(),
            _ => true,
        }
    }
}

/// What the platform layer does next.
#[derive(Clone, Copy, Debug, PartialEq, Eq, Structural)]
pub enum Command {
    /// Nothing.
    Idle,
    /// Write the texture's contents with this layout, then request a redraw.
    Upload(UploadLayout),
    /// Report why a reload was refused; the texture keeps its image.
    KeepPrevious(ReloadError),
    /// Apply the surface configuration, now of this size, then request a
    /// redraw.
    Reconfigure { width: u32, height: u32 },
    /// Acquire the next frame, clear it, issue this draw in one render
    /// pass, submit and present.
    Draw(DrawCall),
    /// Request a redraw.
    RequestRedraw,
    /// Leave the loop.
    Exit,
}

/// The loop's state as the scheduler sees it, with every frame presented
/// so far (the texture bytes it showed).
pub ghost struct LoopModel<F, A> {
    pub phase: Phase,
    pub window_width: u32,
    pub window_height: u32,
    pub config: SurfaceConfig<F, A>,
    pub texture: ImageModel,
    pub redraw_pending: bool,
    pub frames: Seq<Seq<u8>>,
}

/// The texture holds a valid image and the surface has the window's size,
/// clamped to at least one in each dimension.
pub open spec fn loop_invariant<F, A>(m: LoopModel<F, A>) -> bool {
    &&& valid_image(m.texture)
    &&& m.config.width == clamp_extent(m.window_width)
    &&& m.config.height == clamp_extent(m.window_height)
}

/// The state after `e`.
pub open spec fn next_state<F, A>(m: LoopModel<F, A>, e: LoopEvent) -> LoopModel<F, A> {
    if m.phase == Phase::Closing {
        m
    } else {
        match e {
            LoopEvent::FileChanged(Some(image)) => if same_size(image@, m.texture) {
                LoopModel { texture: image@, redraw_pending: true, ..m }
            } else {
                m
            },
            LoopEvent::FileChanged(None) => m,
            LoopEvent::Resized { width, height } => LoopModel {
                window_width: width,
                window_height: height,
                config: SurfaceConfig {
                    width: clamp_extent(width),
                    height: clamp_extent(height),
                    ..m.config
                },
                redraw_pending: true,
                ..m
            },
            LoopEvent::CloseRequested => LoopModel { phase: Phase::Closing, ..m },
            LoopEvent::RedrawRequested => LoopModel {
                redraw_pending: false,
                frames: m.frames.push(m.texture.bytes),
                ..m
            },
            LoopEvent::AboutToWait => LoopModel { redraw_pending: true, ..m },
            LoopEvent::Other => m,
        }
    }
}

/// The command for `e` in state `m`.
pub open spec fn command_for<F, A>(m: LoopModel<F, A>, e: LoopEvent) -> Command {
    if m.phase == Phase::Closing {
        Command::Idle
    } else {
        match e {
            LoopEvent::FileChanged(Some(image)) => if same_size(image@, m.texture) {
                Command::Upload(packed_layout(m.texture.width, m.texture.height))
            } else {
                Command::KeepPrevious(mismatch_error(m.texture, image@)->Err_0)
            },
            LoopEvent::FileChanged(None) => Command::KeepPrevious(ReloadError::Unreadable),
            LoopEvent::Resized { width, height } => Command::Reconfigure {
                width: clamp_extent(width),
                height: clamp_extent(height),
            },
            LoopEvent::CloseRequested => Command::Exit,
            LoopEvent::RedrawRequested => Command::Draw(quad_draw()),
            LoopEvent::AboutToWait => Command::RequestRedraw,
            LoopEvent::Other => Command::Idle,
        }
    }
}

/// The state after each of `events` in turn.
pub open spec fn run<F, A>(m: LoopModel<F, A>, events: Seq<LoopEvent>) -> LoopModel<F, A>
    decreases events.len(),
{
    if events.len() == 0 {
        m
    } else {
        next_state(run(m, events.drop_last()), events.last())
    }
}

/// The state the scheduler owns across ticks.
pub struct RenderLoopState<F, A> {
    phase: Phase,
    window_width: u32,
    window_height: u32,
    config: SurfaceConfig<F, A>,
    texture: TextureSlot,
    redraw_pending: bool,
    frames: Ghost<Seq<Seq<u8>>>,
}

impl<F, A> View for RenderLoopState<F, A> {
    type V = LoopModel<F, A>;

    closed spec fn view(&self) -> LoopModel<F, A> {
        LoopModel {
            phase: self.phase,
            window_width: self.window_width,
            window_height: self.window_height,
            config: self.config,
            texture: self.texture@,
            redraw_pending: self.redraw_pending,
            frames: self.frames@,
        }
    }
}

impl<F, A> RenderLoopState<F, A> {
    pub open spec fn wf(&self) -> bool {
        loop_invariant(self@)
    }

    /// A running loop for a window sized to `image`, with the surface in
    /// `format` and `alpha_mode`, the texture holding `image`, and nothing
    /// presented yet.
    pub fn new(format: F, alpha_mode: A, image: PixelBuffer) -> (r: Self)
        requires
            image.wf(),
        ensures
            r.wf(),
            r@.phase == Phase::Running,
            r@.window_width == image@.width,
            r@.window_height == image@.height,
            r@.config == fifo_config(format, alpha_mode, image@.width as u32, image@.height as u32),
            r@.texture == image@,
            !r@.redraw_pending,
            r@.frames == Seq::<Seq<u8>>::empty(),
    {
        let w = image.width();
        let h = image.height();
        RenderLoopState {
            phase: Phase::Running,
            window_width: w,
            window_height: h,
            config: SurfaceConfig::new(format, alpha_mode, w, h),
            texture: TextureSlot::create(image),
            redraw_pending: false,
            frames: Ghost(Seq::empty()),
        }
    }
    pub fn phase(&self) -> (r: Phase)
        ensures
            r == self@.phase,
    {
        self.phase
    }

    /// The surface configuration, always of the window's size clamped to at
    /// least one.
    pub fn config(&self) -> (r: &SurfaceConfig<F, A>)
        ensures
            *r == self@.config,
    {
        &self.config
    }

    /// The texture and the image it holds.
    pub fn texture(&self) -> (r: &TextureSlot)
        ensures
            r@ == self@.texture,
    {
        &self.texture
    }

    /// Whether a redraw was requested and has not been drawn yet.
    pub fn redraw_pending(&self) -> (r: bool)
        ensures
            r == self@.redraw_pending,
    {
        self.redraw_pending
    }

    /// Handles one event and says what the platform layer does next.
    pub fn dispatch(&mut self, event: LoopEvent) -> (r: Command)
        requires
            old(self).wf(),
            event.wf(),
        ensures
            final(self).wf(),
            final(self)@ == next_state(old(self)@, event),
            r == command_for(old(self)@, event),
    {
        if self.phase == Phase::Closing {
            return Command::Idle;
        }
        match event {
            LoopEvent::FileChanged(Some(image)) => {
                match self.texture.reload(image) {
                    Ok(()) => {
                        self.redraw_pending = true;
                        Command::Upload(self.texture.upload_layout())
                    },
                    Err(e) => Command::KeepPrevious(e),
                }
            },
            LoopEvent::FileChanged(None) => Command::KeepPrevious(ReloadError::Unreadable),
            LoopEvent::Resized { width, height } => {
                self.window_width = width;
                self.window_height = height;
                self.config.resize(width, height);
                self.redraw_pending = true;
                Command::Reconfigure { width: self.config.width, height: self.config.height }
            },
            LoopEvent::CloseRequested => {
                self.phase = Phase::Closing;
                Command::Exit
            },
            LoopEvent::RedrawRequested => {
                self.redraw_pending = false;
                self.frames = Ghost(self.frames@.push(self.texture@.bytes));
                Command::Draw(draw_call())
            },
            LoopEvent::AboutToWait => {
                self.redraw_pending = true;
                Command::RequestRedraw
            },
            LoopEvent::Other => Command::Idle,
        }
    }
}

/// A reload of each of `images` in turn, each followed by a redraw.
pub open spec fn reload_then_redraw(images: Seq<PixelBuffer>) -> Seq<LoopEvent>
    decreases images.len(),
{
    if images.len() == 0 {
        Seq::empty()
    } else {
        reload_then_redraw(images.drop_last()) + seq![
            LoopEvent::FileChanged(Some(images.last())),
            LoopEvent::RedrawRequested,
        ]
    }
}

/// Running `events` and then `e` is running `events` pushed with `e`.
proof fn lemma_run_push<F, A>(m: LoopModel<F, A>, events: Seq<LoopEvent>, e: LoopEvent)
    ensures
        run(m, events.push(e)) == next_state(run(m, events), e),
{
    assert(events.push(e).drop_last() =~= events);
}

/// Reloads of images of the texture's size are shown in the order they
/// came: with a redraw after each, the frames presented are those images'
/// bytes, one after the other, and the last one stays in the texture.
pub proof fn lemma_reloads_shown_in_order<F, A>(m: LoopModel<F, A>, images: Seq<PixelBuffer>)
    requires
        m.phase == Phase::Running,
        forall|i: int| 0 <= i < images.len() ==> same_size(#[trigger] images[i]@, m.texture),
    ensures
        run(m, reload_then_redraw(images)).phase == Phase::Running,
        run(m, reload_then_redraw(images)).frames == m.frames + images.map_values(
            |b: PixelBuffer| b@.bytes,
        ),
        images.len() > 0 ==> run(m, reload_then_redraw(images)).texture == images.last()@,
        same_size(run(m, reload_then_redraw(images)).texture, m.texture),
    decreases images.len(),
{
    let shown = |b: PixelBuffer| b@.bytes;
    if images.len() == 0 {
        assert(m.frames + images.map_values(shown) =~= m.frames);
    } else {
        let init = images.drop_last();
        let img = images.last();
        lemma_reloads_shown_in_order(m, init);
        let before = reload_then_redraw(init);
        let reload = LoopEvent::FileChanged(Some(img));
        let redraw = LoopEvent::RedrawRequested;
        assert(reload_then_redraw(images) =~= before.push(reload).push(redraw));
        lemma_run_push(m, before, reload);
        lemma_run_push(m, before.push(reload), redraw);
        assert(same_size(img@, m.texture));
        assert(images.map_values(shown) =~= init.map_values(shown).push(img@.bytes));
        assert(m.frames + images.map_values(shown) =~= (m.frames + init.map_values(shown)).push(
            img@.bytes,
        ));
    }
}

/// A reloaded image of another size than the texture's is refused: the
/// state stays as it was, so the texture keeps its image and the next
/// redraw shows it again.
pub proof fn lemma_mismatch_keeps_image<F, A>(m: LoopModel<F, A>, image: PixelBuffer)
    requires
        m.phase == Phase::Running,
        !same_size(image@, m.texture),
    ensures
        next_state(m, LoopEvent::FileChanged(Some(image))) == m,
        command_for(m, LoopEvent::FileChanged(Some(image))) == Command::KeepPrevious(
            mismatch_error(m.texture, image@)->Err_0,
        ),
        next_state(next_state(m, LoopEvent::FileChanged(Some(image))), LoopEvent::RedrawRequested).frames
            == m.frames.push(m.texture.bytes),
{
}

/// A close request ends the loop once: the state becomes `Closing` with
/// an `Exit` command, and from then on no event changes the state (no
/// frame is drawn, no image reloaded, no surface reconfigured) and every
/// event is answered with `Idle`.
pub proof fn lemma_close_is_final<F, A>(m: LoopModel<F, A>, later: Seq<LoopEvent>)
    requires
        m.phase == Phase::Running,
    ensures
        next_state(m, LoopEvent::CloseRequested).phase == Phase::Closing,
        command_for(m, LoopEvent::CloseRequested) == Command::Exit,
        run(next_state(m, LoopEvent::CloseRequested), later) == next_state(
            m,
            LoopEvent::CloseRequested,
        ),
        forall|i: int|
            0 <= i < later.len() ==> command_for(
                run(next_state(m, LoopEvent::CloseRequested), later.take(i)),
                #[trigger] later[i],
            ) == Command::Idle,
    decreases later.len(),
{
    let closed = next_state(m, LoopEvent::CloseRequested);
    if later.len() > 0 {
        lemma_close_is_final(m, later.drop_last());
        assert forall|i: int| 0 <= i < later.len() implies command_for(
            run(closed, later.take(i)),
            #[trigger] later[i],
        ) == Command::Idle by {
            if i < later.len() - 1 {
                assert(later.take(i) =~= later.drop_last().take(i));
                assert(later[i] == later.drop_last()[i]);
            } else {
                assert(later.take(i) =~= later.drop_last());
            }
        }
    }
}

/// Whatever events come, the surface keeps the window's size clamped to at
/// least one, and the texture a valid image.
pub proof fn lemma_invariant_kept<F, A>(m: LoopModel<F, A>, events: Seq<LoopEvent>)
    requires
        loop_invariant(m),
        forall|i: int| 0 <= i < events.len() ==> (#[trigger] events[i]).wf(),
    ensures
        loop_invariant(run(m, events)),
        run(m, events).config.wf(),
    decreases events.len(),
{
    if events.len() > 0 {
        let init = events.drop_last();
        assert forall|i: int| 0 <= i < init.len() implies (#[trigger] init[i]).wf() by {
            assert(init[i] == events[i]);
        }
        lemma_invariant_kept(m, init);
        assert(events.last().wf());
    }
}

} // verus!
