//! The petals of a mandala, their two end states and the clock that moves
//! them from one to the other.

use vstd::prelude::*;
use crate::color::Color;
use crate::fixed::{lerp, lerp_spec, UNIT};
use crate::mesh::{MutableMesh, RenderSink, Shape};
use crate::svg_path::{path_data_of, ParseError};
use crate::transform::Transform;
use crate::transition::MandalaTransition;

verus! {

/// How the petals look at one end of their motion, fully open or fully
/// closed.
#[derive(Clone, Copy, Debug, PartialEq, Eq, Structural)]
pub struct MandalaState {
    /// The colour of the petals.
    pub color: Color,
    /// The turn of each petal about its own root.
    pub petal_rotate_transform: Transform,
    /// The stretch of each petal.
    pub petal_scale_transform: Transform,
    /// The shift of each petal away from the hub.
    pub petal_translate_transform: Transform,
}

impl MandalaState {
    /// The state between `self` (weight zero) and `open` (weight `UNIT`): the
    /// colour and each of the three transformations are blended on their
    /// own.
    pub open spec fn mix(self, open: MandalaState, weight: int) -> MandalaState {
        MandalaState {
            color: self.color.mix(open.color, weight),
            petal_rotate_transform: self.petal_rotate_transform.mix(
                open.petal_rotate_transform,
                weight,
            ),
            petal_scale_transform: self.petal_scale_transform.mix(
                open.petal_scale_transform,
                weight,
            ),
            petal_translate_transform: self.petal_translate_transform.mix(
                open.petal_translate_transform,
                weight,
            ),
        }
    }

    /// Where a petal of this state is placed in the slot that is turned by
    /// `slot` about a hub at `center`: the petal is turned about its root,
    /// stretched, shifted outwards, turned into its slot and moved to the
    /// hub, in this order.
    pub open spec fn petal_transform(self, center: Transform, slot: Transform) -> Transform {
        center.product(slot).product(self.petal_translate_transform).product(
            self.petal_scale_transform,
        ).product(self.petal_rotate_transform)
    }

    /// A state for one end of the motion of the petals.
    pub fn new(
        color: Color,
        petal_rotate_transform: Transform,
        petal_scale_transform: Transform,
        petal_translate_transform: Transform,
    ) -> (state: Self)
        ensures
            state == (MandalaState {
                color,
                petal_rotate_transform,
                petal_scale_transform,
                petal_translate_transform,
            }),
    {
        MandalaState {
            color,
            petal_rotate_transform,
            petal_scale_transform,
            petal_translate_transform,
        }
    }

    /// Blends from `self` (weight zero) towards `open` (weight `UNIT`).
    pub fn interpolate(&self, open: &MandalaState, weight: i64) -> (state: MandalaState)
        ensures
            state == self.mix(*open, weight as int),
    {
        MandalaState {
            color: self.color.interpolate(&open.color, weight),
            petal_rotate_transform: self.petal_rotate_transform.interpolate(
                &open.petal_rotate_transform,
                weight,
            ),
            petal_scale_transform: self.petal_scale_transform.interpolate(
                &open.petal_scale_transform,
                weight,
            ),
            petal_translate_transform: self.petal_translate_transform.interpolate(
                &open.petal_translate_transform,
                weight,
            ),
        }
    }

    /// Where a petal of this state is placed in the slot that is turned by
    /// `slot` about a hub at `center`.
    pub fn place(&self, center: &Transform, slot: &Transform) -> (t: Transform)
        ensures
            t == self.petal_transform(*center, *slot),
    {
        center.compose(slot).compose(&self.petal_translate_transform).compose(
            &self.petal_scale_transform,
        ).compose(&self.petal_rotate_transform)
    }
}

/// The angle of slot `k` of `n` slots spread evenly over the full turn, in
/// millionths of a degree, rounded down.
pub open spec fn slot_angle_spec(k: int, n: int) -> int {
    360 * (UNIT as int) * k / n
}

/// The angle of slot `k` of `n` slots spread evenly over the full turn, in
/// millionths of a degree.
pub fn slot_angle(k: usize, n: usize) -> (angle: i64)
    requires
        k < n,
    ensures
        angle == slot_angle_spec(k as int, n as int),
        0 <= angle < 360 * UNIT,
{
    let turn: u128 = 360_000_000;
    assert(0 <= 360_000_000 * (k as int) < 360_000_000 * 0x1_0000_0000_0000_0000 && (360_000_000
        * (k as int)) / (n as int) < 360_000_000) by (nonlinear_arith)
        requires
            0 <= k < n <= 0xffff_ffff_ffff_ffff,
    ;
    let angle: u128 = (turn * (k as u128)) / (n as u128);
    angle as i64
}

/// The turns of `petal_count` slots spread evenly over the full turn, as
/// `rotate` makes them from their angles.
pub fn slot_rotations<F: Fn(i64) -> Transform>(petal_count: usize, rotate: F) -> (slots: Vec<
    Transform,
>)
    requires
        forall|angle: i64| 0 <= angle < 360 * UNIT ==> call_requires(rotate, (angle,)),
    ensures
        slots@.len() == petal_count,
        forall|k: int|
            0 <= k < petal_count ==> call_ensures(
                rotate,
                (slot_angle_spec(k, petal_count as int) as i64,),
                #[trigger] slots@[k],
            ),
{
    let mut slots: Vec<Transform> = Vec::new();
    let mut k: usize = 0;
    while k < petal_count
        invariant
            k <= petal_count,
            slots@.len() == k,
            forall|angle: i64| 0 <= angle < 360 * UNIT ==> call_requires(rotate, (angle,)),
            forall|j: int|
                0 <= j < k ==> call_ensures(
                    rotate,
                    (slot_angle_spec(j, petal_count as int) as i64,),
                    #[trigger] slots@[j],
                ),
        decreases petal_count - k,
    {
        let angle = slot_angle(k, petal_count);
        slots.push(rotate(angle));
        k += 1;
    }
    slots
}

/// A flower of petals set evenly around a hub, which opens and closes as a
/// clock runs.
pub struct Mandala {
    mandala_state_open: MandalaState,
    mandala_state_closed: MandalaState,
    mandala_center: Transform,
    petal_rotation: Vec<Transform>,
    petal: MutableMesh,
    frames: Vec<String>,
    current_transition: MandalaTransition,
}

impl Mandala {
    /// The state of the fully open mandala.
    pub closed spec fn open_state(&self) -> MandalaState {
        self.mandala_state_open
    }

    /// The state of the fully closed mandala.
    pub closed spec fn closed_state(&self) -> MandalaState {
        self.mandala_state_closed
    }

    /// Where the hub is and how large the mandala is drawn.
    pub closed spec fn center(&self) -> Transform {
        self.mandala_center
    }

    /// The turn of each slot, in the order in which the petals are drawn.
    pub closed spec fn slots(&self) -> Seq<Transform> {
        self.petal_rotation@
    }

    /// The petal that is drawn once in each slot.
    pub closed spec fn petal_mesh(&self) -> MutableMesh {
        self.petal
    }

    /// The outlines that the petal can be given, one for each frame; a
    /// mandala of a single shape has none.
    pub closed spec fn frames(&self) -> Seq<String> {
        self.frames@
    }

    /// The animation that is running, or the last one that ran.
    pub closed spec fn transition(&self) -> MandalaTransition {
        self.current_transition
    }

    /// How far the mandala is open at time `now`: zero is closed, `UNIT` is
    /// open.
    pub open spec fn value_at(&self, now: int) -> int {
        self.transition().value_at(now)
    }

    /// The state of the petals at time `now`.
    pub open spec fn state_at(&self, now: int) -> MandalaState {
        self.closed_state().mix(self.open_state(), self.value_at(now))
    }

    /// What is drawn in slot `k` at time `now`, were `path` the outline of
    /// the petal.
    pub open spec fn petal_shape(&self, now: int, k: int, path: String) -> Shape {
        Shape {
            path,
            color: self.state_at(now).color,
            transform: self.state_at(now).petal_transform(self.center(), self.slots()[k]),
        }
    }

    /// Everything that one drawing at time `now` hands on, were `path` the
    /// outline of the petal: one shape for each slot, in the order of the
    /// slots.
    pub open spec fn petals_with(&self, now: int, path: String) -> Seq<Shape> {
        Seq::new(self.slots().len(), |k: int| self.petal_shape(now, k, path))
    }

    /// Everything that one drawing at time `now` hands on.
    pub open spec fn petals_at(&self, now: int) -> Seq<Shape> {
        self.petals_with(now, self.petal_mesh().path)
    }

    /// The outline that a drawing of frame `frame_index` shows: that of the
    /// frame where there is such a frame, else the one that the petal has.
    pub open spec fn frame_path(&self, frame_index: int) -> String {
        if 0 <= frame_index < self.frames().len() {
            self.frames()[frame_index]
        } else {
            self.petal_mesh().path
        }
    }

    /// Whether the mandala is, but for the outline of its petal, what a
    /// constructor makes of these arguments: the petal is red and not moved,
    /// the hub is put at `screen_position` after the whole figure was
    /// stretched by `scale`, slot `k` of the `petal_count` slots holds what
    /// `rotate` gives for its angle, the two end states are the given ones,
    /// and the mandala rests at the openness `value`.
    pub open spec fn laid_out<F: Fn(i64) -> Transform>(
        &self,
        screen_position: (i64, i64),
        scale: (i64, i64),
        petal_count: usize,
        rotate: F,
        mandala_state_open: MandalaState,
        mandala_state_closed: MandalaState,
        value: i64,
    ) -> bool {
        &&& self.petal_mesh().color == Color::red_spec()
        &&& self.petal_mesh().transform == Transform::identity_spec()
        &&& self.center() == Transform::translate_spec(
            screen_position.0,
            screen_position.1,
        ).product(Transform::scale_spec(scale.0, scale.1))
        &&& self.slots().len() == petal_count
        &&& forall|k: int|
            0 <= k < petal_count ==> call_ensures(
                rotate,
                (slot_angle_spec(k, petal_count as int) as i64,),
                #[trigger] self.slots()[k],
            )
        &&& self.open_state() == mandala_state_open
        &&& self.closed_state() == mandala_state_closed
        &&& self.transition() == MandalaTransition::resting(value)
    }

    /// A mandala of `petal_count` petals of a single shape.
    ///
    /// The outline of the petal is taken from the text of an SVG document.
    /// The hub is put at `screen_position`, after the whole figure was
    /// stretched by `scale`. Slot `k` is turned by `k` times the
    /// `petal_count`-th part of the full turn; `rotate` supplies the
    /// transformation for an angle in millionths of a degree. The mandala
    /// rests at the openness `value`.
    ///
    /// Fails exactly if no tag of the document carries path data.
    pub fn new<F: Fn(i64) -> Transform>(
        petal_svg: &str,
        screen_position: (i64, i64),
        scale: (i64, i64),
        petal_count: usize,
        rotate: F,
        mandala_state_open: MandalaState,
        mandala_state_closed: MandalaState,
        value: i64,
    ) -> (r: Result<Mandala, ParseError>)
        requires
            forall|angle: i64| 0 <= angle < 360 * UNIT ==> call_requires(rotate, (angle,)),
        ensures
            match r {
                Ok(mandala) => {
                    &&& path_data_of(petal_svg@) == Some(mandala.petal_mesh().path@)
                    &&& mandala.frames().len() == 0
                    &&& mandala.laid_out(
                        screen_position,
                        scale,
                        petal_count,
                        rotate,
                        mandala_state_open,
                        mandala_state_closed,
                        value,
                    )
                },
                Err(_) => path_data_of(petal_svg@) is None,
            },
    {
        let petal = match MutableMesh::new(petal_svg) {
            Ok(petal) => petal,
            Err(e) => {
                return Err(e);
            },
        };
        Ok(
            Mandala {
                mandala_state_open,
                mandala_state_closed,
                mandala_center: Transform::translate(screen_position.0, screen_position.1).compose(
                    &Transform::scale(scale.0, scale.1),
                ),
                petal_rotation: slot_rotations(petal_count, rotate),
                petal,
                frames: Vec::new(),
                current_transition: MandalaTransition::fixed_value(value),
            },
        )
    }

    /// A mandala of `petal_count` petals whose shape can change from one
    /// drawing to the next.
    ///
    /// Each frame is one outline, given as path data; the petal starts with
    /// the first. Everything else is as for a mandala of a single shape.
    ///
    /// Fails exactly if there is no frame.
    pub fn with_frames<F: Fn(i64) -> Transform>(
        frames: Vec<String>,
        screen_position: (i64, i64),
        scale: (i64, i64),
        petal_count: usize,
        rotate: F,
        mandala_state_open: MandalaState,
        mandala_state_closed: MandalaState,
        value: i64,
    ) -> (r: Result<Mandala, ParseError>)
        requires
            forall|angle: i64| 0 <= angle < 360 * UNIT ==> call_requires(rotate, (angle,)),
        ensures
            match r {
                Ok(mandala) => {
                    &&& frames@.len() > 0
                    &&& mandala.frames() == frames@
                    &&& mandala.petal_mesh().path == frames@[0]
                    &&& mandala.laid_out(
                        screen_position,
                        scale,
                        petal_count,
                        rotate,
                        mandala_state_open,
                        mandala_state_closed,
                        value,
                    )
                },
                Err(_) => frames@.len() == 0,
            },
    {
        if frames.len() == 0 {
            return Err(ParseError);
        }
        let petal = MutableMesh::from_path_data(frames[0].clone());
        Ok(
            Mandala {
                mandala_state_open,
                mandala_state_closed,
                mandala_center: Transform::translate(screen_position.0, screen_position.1).compose(
                    &Transform::scale(scale.0, scale.1),
                ),
                petal_rotation: slot_rotations(petal_count, rotate),
                petal,
                frames,
                current_transition: MandalaTransition::fixed_value(value),
            },
        )
    }

    /// Starts an animation from how far the mandala is open at
    /// `current_time` to `target_value`, which is reached
    /// `transition_duration` later. The animation that ran before is
    /// dropped, wherever it stood.
    pub fn start_transition(
        &mut self,
        current_time: i64,
        transition_duration: i64,
        target_value: i64,
    )
        ensures
            final(self).transition() == (MandalaTransition {
                start_time: current_time,
                duration: transition_duration,
                start_value: old(self).value_at(current_time as int) as i64,
                end_value: target_value,
            }),
            final(self).value_at(current_time as int) == old(self).value_at(current_time as int),
            final(self).transition().percent_at(current_time as int) == 0,
            final(self).open_state() == old(self).open_state(),
            final(self).closed_state() == old(self).closed_state(),
            final(self).center() == old(self).center(),
            final(self).slots() == old(self).slots(),
            final(self).petal_mesh() == old(self).petal_mesh(),
            final(self).frames() == old(self).frames(),
    {
        let current_value = self.current_value(current_time);
        self.current_transition = MandalaTransition::new(
            current_time,
            transition_duration,
            current_value,
            target_value,
        );
        proof {
            crate::transition::lemma_value_at_start(self.current_transition, current_time as int);
        }
    }

    /// How far the mandala is open at `current_time`: zero is closed, `UNIT`
    /// is open.
    pub fn current_value(&self, current_time: i64) -> (value: i64)
        ensures
            value == self.value_at(current_time as int),
    {
        self.current_transition.value(current_time)
    }

    /// The elapsed share of the running animation at `current_time`, in
    /// millionths.
    pub fn current_percent(&self, current_time: i64) -> (percent: i64)
        ensures
            percent == self.transition().percent_at(current_time as int),
            0 <= percent <= UNIT,
    {
        self.current_transition.percent_elapsed(current_time)
    }

    /// The value between `start` and `end` that matches how far the mandala
    /// is open at `current_time`.
    pub fn interpolate_value(&self, current_time: i64, start: i64, end: i64) -> (value: i64)
        ensures
            value == lerp_spec(start, end, self.value_at(current_time as int)),
    {
        lerp(start, end, self.current_value(current_time))
    }

    /// The transformation between `start` and `end` that matches how far the
    /// mandala is open at `current_time`, each entry blended on its own.
    pub fn current_transform(
        &self,
        current_time: i64,
        start: &Transform,
        end: &Transform,
    ) -> (t: Transform)
        ensures
            t == start.mix(*end, self.value_at(current_time as int)),
    {
        start.interpolate(end, self.current_value(current_time))
    }

    /// The colour of the petals at `current_time`, each channel blended on
    /// its own between the closed and the open colour.
    pub fn interpolate_color(&self, current_time: i64) -> (color: Color)
        ensures
            color == self.closed_state().color.mix(
                self.open_state().color,
                self.value_at(current_time as int),
            ),
    {
        Color {
            r: self.interpolate_value(
                current_time,
                self.mandala_state_closed.color.r,
                self.mandala_state_open.color.r,
            ),
            g: self.interpolate_value(
                current_time,
                self.mandala_state_closed.color.g,
                self.mandala_state_open.color.g,
            ),
            b: self.interpolate_value(
                current_time,
                self.mandala_state_closed.color.b,
                self.mandala_state_open.color.b,
            ),
            a: self.interpolate_value(
                current_time,
                self.mandala_state_closed.color.a,
                self.mandala_state_open.color.a,
            ),
        }
    }

    /// The state of the petals at `current_time`: the closed state while the
    /// openness is zero, the open state while it is `UNIT`.
    pub fn current_state(&self, current_time: i64) -> (state: MandalaState)
        ensures
            state == self.state_at(current_time as int),
    {
        let color = self.interpolate_color(current_time);
        let petal_rotate_transform = self.current_transform(
            current_time,
            &self.mandala_state_closed.petal_rotate_transform,
            &self.mandala_state_open.petal_rotate_transform,
        );
        let petal_scale_transform = self.current_transform(
            current_time,
            &self.mandala_state_closed.petal_scale_transform,
            &self.mandala_state_open.petal_scale_transform,
        );
        let petal_translate_transform = self.current_transform(
            current_time,
            &self.mandala_state_closed.petal_translate_transform,
            &self.mandala_state_open.petal_translate_transform,
        );
        MandalaState {
            color,
            petal_rotate_transform,
            petal_scale_transform,
            petal_translate_transform,
        }
    }

    /// Draws the petals as they are at `current_time`: one shape for each
    /// slot, in the order of the slots, all of one colour.
    ///
    /// The petal keeps the colour and the placement of the last drawing;
    /// nothing else of the mandala changes.
    pub fn draw(&mut self, current_time: i64, sink: &mut RenderSink)
        ensures
            final(sink).shapes@ == old(sink).shapes@ + old(self).petals_at(current_time as int),
            final(self).open_state() == old(self).open_state(),
            final(self).closed_state() == old(self).closed_state(),
            final(self).center() == old(self).center(),
            final(self).slots() == old(self).slots(),
            final(self).frames() == old(self).frames(),
            final(self).transition() == old(self).transition(),
            final(self).petal_mesh().path == old(self).petal_mesh().path,
            final(self).petal_mesh().color == old(self).state_at(current_time as int).color,
            final(self).petal_mesh().transform == if old(self).slots().len() == 0 {
                old(self).petal_mesh().transform
            } else {
                old(self).petals_at(current_time as int).last().transform
            },
    {
        let mandala_state = self.current_state(current_time);
        self.petal.set_color(mandala_state.color);
        let ghost before = sink.shapes@;
        let ghost petals = self.petals_at(current_time as int);
        let mut i: usize = 0;
        while i < self.petal_rotation.len()
            invariant
                i <= self.petal_rotation@.len(),
                self.mandala_state_open == old(self).mandala_state_open,
                self.mandala_state_closed == old(self).mandala_state_closed,
                self.mandala_center == old(self).mandala_center,
                self.petal_rotation == old(self).petal_rotation,
                self.frames == old(self).frames,
                self.current_transition == old(self).current_transition,
                self.petal.path == old(self).petal.path,
                self.petal.color == mandala_state.color,
                mandala_state == old(self).state_at(current_time as int),
                petals == old(self).petals_at(current_time as int),
                sink.shapes@ == before + petals.take(i as int),
                self.petal.transform == if i == 0 {
                    old(self).petal.transform
                } else {
                    petals[i - 1].transform
                },
            decreases self.petal_rotation@.len() - i,
        {
            let transform = mandala_state.place(&self.mandala_center, &self.petal_rotation[i]);
            self.petal.set_transform(transform);
            self.petal.tesselate(sink);
            i += 1;
        }
    }

    /// Gives the petal the outline of frame `frame_index` and draws the
    /// petals as they are at `current_time`.
    ///
    /// Where there is no such frame, the petal keeps the outline that it
    /// has, the petals are drawn with it all the same, and the answer is
    /// `false`.
    pub fn draw_frame(
        &mut self,
        current_time: i64,
        sink: &mut RenderSink,
        frame_index: usize,
    ) -> (found: bool)
        ensures
            found == (frame_index < old(self).frames().len()),
            final(sink).shapes@ == old(sink).shapes@ + old(self).petals_with(
                current_time as int,
                old(self).frame_path(frame_index as int),
            ),
            final(self).open_state() == old(self).open_state(),
            final(self).closed_state() == old(self).closed_state(),
            final(self).center() == old(self).center(),
            final(self).slots() == old(self).slots(),
            final(self).frames() == old(self).frames(),
            final(self).transition() == old(self).transition(),
            final(self).petal_mesh().path == old(self).frame_path(frame_index as int),
            final(self).petal_mesh().color == old(self).state_at(current_time as int).color,
            final(self).petal_mesh().transform == if old(self).slots().len() == 0 {
                old(self).petal_mesh().transform
            } else {
                old(self).petals_at(current_time as int).last().transform
            },
    {
        let found = frame_index < self.frames.len();
        if found {
            let path = self.frames[frame_index].clone();
            self.petal.update_path(path);
        }
        self.draw(current_time, sink);
        found
    }

    /// The number of petals.
    pub fn petal_count(&self) -> (count: usize)
        ensures
            count == self.slots().len(),
    {
        self.petal_rotation.len()
    }

    /// The petal that is drawn once in each slot.
    pub fn petal(&self) -> (petal: &MutableMesh)
        ensures
            *petal == self.petal_mesh(),
    {
        &self.petal
    }
}

/// One drawing hands on exactly one shape for each slot, and two of them
/// differ in nothing but the turn of their slots: all have the outline of
/// the petal and the colour of the moment, and each is placed by the same
/// rule with the turn of its own slot.
pub proof fn lemma_petals_differ_by_slot_only(mandala: Mandala, now: int, j: int, k: int)
    requires
        0 <= j < mandala.slots().len(),
        0 <= k < mandala.slots().len(),
    ensures
        mandala.petals_at(now).len() == mandala.slots().len(),
        mandala.petals_at(now)[j].path == mandala.petals_at(now)[k].path,
        mandala.petals_at(now)[j].color == mandala.petals_at(now)[k].color,
        mandala.petals_at(now)[j].transform == mandala.state_at(now).petal_transform(
            mandala.center(),
            mandala.slots()[j],
        ),
        mandala.petals_at(now)[k].transform == mandala.state_at(now).petal_transform(
            mandala.center(),
            mandala.slots()[k],
        ),
        mandala.slots()[j] == mandala.slots()[k] ==> mandala.petals_at(now)[j]
            == mandala.petals_at(now)[k],
{
}

/// Where the hub, the slots and both end states of a mandala are affine,
/// every petal is placed by an affine transformation, however far the
/// mandala is open.
pub proof fn lemma_petals_are_placed_affinely(mandala: Mandala, now: int, k: int)
    requires
        0 <= k < mandala.slots().len(),
        mandala.center().is_affine(),
        mandala.slots()[k].is_affine(),
        mandala.open_state().petal_rotate_transform.is_affine(),
        mandala.open_state().petal_scale_transform.is_affine(),
        mandala.open_state().petal_translate_transform.is_affine(),
        mandala.closed_state().petal_rotate_transform.is_affine(),
        mandala.closed_state().petal_scale_transform.is_affine(),
        mandala.closed_state().petal_translate_transform.is_affine(),
    ensures
        mandala.petals_at(now)[k].transform.is_affine(),
{
    let closed = mandala.closed_state();
    let open = mandala.open_state();
    let state = mandala.state_at(now);
    let weight = mandala.value_at(now);
    crate::transform::lemma_mix_is_affine(
        closed.petal_rotate_transform,
        open.petal_rotate_transform,
        weight,
    );
    crate::transform::lemma_mix_is_affine(
        closed.petal_scale_transform,
        open.petal_scale_transform,
        weight,
    );
    crate::transform::lemma_mix_is_affine(
        closed.petal_translate_transform,
        open.petal_translate_transform,
        weight,
    );
    let hub = mandala.center().product(mandala.slots()[k]);
    crate::transform::lemma_product_is_affine(mandala.center(), mandala.slots()[k]);
    let shifted = hub.product(state.petal_translate_transform);
    crate::transform::lemma_product_is_affine(hub, state.petal_translate_transform);
    let stretched = shifted.product(state.petal_scale_transform);
    crate::transform::lemma_product_is_affine(shifted, state.petal_scale_transform);
    crate::transform::lemma_product_is_affine(stretched, state.petal_rotate_transform);
}

/// A mandala without petals draws nothing.
pub proof fn lemma_no_petals_no_shapes(mandala: Mandala, now: int)
    requires
        mandala.slots().len() == 0,
    ensures
        mandala.petals_at(now) == Seq::<Shape>::empty(),
{
}

/// The state of a closed mandala is its closed end state, and the state of
/// an open mandala is its open end state.
pub proof fn lemma_state_at_ends(mandala: Mandala, now: int)
    ensures
        mandala.value_at(now) == 0 ==> mandala.state_at(now) == mandala.closed_state(),
        mandala.value_at(now) == UNIT ==> mandala.state_at(now) == mandala.open_state(),
{
    assert forall|from: i64, to: i64| #[trigger] lerp_spec(from, to, 0) == from by {
        crate::fixed::lemma_blend_endpoints(from as int, to as int);
    }
    assert forall|from: i64, to: i64| #[trigger] lerp_spec(from, to, UNIT as int) == to by {
        crate::fixed::lemma_blend_endpoints(from as int, to as int);
    }
}

} // verus!
