//! Listening for frames: the map that collects one frame of each type, and
//! the aggregator that hands a set of frames on once it is complete.

use vstd::prelude::*;

use crate::error::NativeError;
use crate::frame::Frame;
use crate::frame_type::{FrameType, FrameTypes};

verus! {

/// What a frame callback reports to the native driver: nothing where it
/// succeeded, and the message of its error where it failed. The driver logs
/// a report that is not empty; an error never travels on as an exception of
/// the thread that delivered the frame.
pub open spec fn report_of(result: Result<(), String>) -> Seq<char> {
    match result {
        Ok(()) => Seq::empty(),
        Err(message) => message@,
    }
}

/// Turns the result of a frame callback into its report.
pub fn report(result: Result<(), String>) -> (text: String)
    ensures
        text@ == report_of(result),
{
    match result {
        Ok(()) => String::new(),
        Err(message) => message,
    }
}

/// What a callback came to, where its panics are caught: the result that it
/// returned, or the text of the panic that was caught. A panic counts as a
/// failure of the callback with that text as its message, so that it is
/// reported and logged and never unwinds into the native driver.
pub fn contain_panic(caught: Result<Result<(), String>, String>) -> (result: Result<(), String>)
    ensures
        result == match caught {
            Ok(returned) => returned,
            Err(panic_text) => Err::<(), String>(panic_text),
        },
{
    match caught {
        Ok(returned) => returned,
        Err(panic_text) => Err(panic_text),
    }
}

/// A listener for new frames: a callback that is called with each frame
/// that arrives, and with the type of the frame.
///
/// The frame is valid during the call only. Each call stands for itself:
/// what one call reports has no influence on the next.
pub struct FrameListener<F> {
    func: F,
}

impl<F: Fn(FrameType, Frame<'static>) -> Result<(), String>> FrameListener<F> {
    /// The callback of the listener.
    pub closed spec fn callback(&self) -> F {
        self.func
    }

    /// Create a new listener with a callback that is called when a frame
    /// arrives.
    pub fn new(f: F) -> (listener: FrameListener<F>)
        ensures
            listener.callback() == f,
    {
        FrameListener { func: f }
    }

    /// Hands a frame that has arrived to the callback, and returns what is
    /// reported to the native driver: the empty text where the callback
    /// succeeded, and the message of its error where it failed.
    pub fn on_new_frame(&self, ty: FrameType, frame: Frame<'static>) -> (text: String)
        requires
            self.callback().requires((ty, frame)),
        ensures
            exists|result: Result<(), String>|
                self.callback().ensures((ty, frame), result) && text@ == report_of(result),
    {
        let result = (self.func)(ty, frame);
        report(result)
    }
}

/// A map of frames: at most one frame of each of the three frame types.
#[derive(Debug)]
pub struct FrameMap<T> {
    color: Option<T>,
    ir: Option<T>,
    depth: Option<T>,
}

impl<T> FrameMap<T> {
    /// The frame of type `ty`, if the map holds one.
    pub closed spec fn slot(&self, ty: FrameType) -> Option<T> {
        match ty {
            FrameType::Color => self.color,
            FrameType::Ir => self.ir,
            FrameType::Depth => self.depth,
        }
    }

    /// The frame types of which the map holds a frame.
    pub open spec fn present(&self) -> FrameTypes {
        FrameTypes {
            color: self.slot(FrameType::Color) is Some,
            ir: self.slot(FrameType::Ir) is Some,
            depth: self.slot(FrameType::Depth) is Some,
        }
    }

    /// Whether the map holds no frame.
    pub open spec fn is_empty(&self) -> bool {
        forall|ty: FrameType| self.slot(ty) is None
    }

    /// Whether the map holds the frames of `before` and, in place of what
    /// `before` held of type `ty`, the frame `frame`.
    pub open spec fn is_update_of(
        &self,
        before: &FrameMap<T>,
        ty: FrameType,
        frame: Option<T>,
    ) -> bool {
        forall|other: FrameType| #[trigger]
            self.slot(other) == if other == ty {
                frame
            } else {
                before.slot(other)
            }
    }

    /// Whether the map holds a frame of every type in `types`.
    pub open spec fn holds_all(&self, types: FrameTypes) -> bool {
        forall|ty: FrameType| types.has(ty) ==> self.slot(ty) is Some
    }

    /// An empty map.
    pub fn new() -> (map: FrameMap<T>)
        ensures
            map.is_empty(),
    {
        FrameMap { color: None, ir: None, depth: None }
    }

    /// Insert a frame into the map, in place of the frame of its type that
    /// the map may hold.
    pub fn insert(&mut self, ty: FrameType, frame: T)
        ensures
            final(self).is_update_of(old(self), ty, Some(frame)),
    {
        match ty {
            FrameType::Color => self.set_color(frame),
            FrameType::Ir => self.set_ir(frame),
            FrameType::Depth => self.set_depth(frame),
        }
    }

    /// Set the color frame.
    pub fn set_color(&mut self, frame: T)
        ensures
            final(self).is_update_of(old(self), FrameType::Color, Some(frame)),
    {
        self.color = Some(frame);
    }

    /// Set the ir frame.
    pub fn set_ir(&mut self, frame: T)
        ensures
            final(self).is_update_of(old(self), FrameType::Ir, Some(frame)),
    {
        self.ir = Some(frame);
    }

    /// Set the depth frame.
    pub fn set_depth(&mut self, frame: T)
        ensures
            final(self).is_update_of(old(self), FrameType::Depth, Some(frame)),
    {
        self.depth = Some(frame);
    }

    /// Check if the map contains a frame of every type in `types`.
    pub fn contains_values(&self, types: &FrameTypes) -> (complete: bool)
        ensures
            complete == self.holds_all(*types),
    {
        let complete = (!types.color || self.color.is_some()) && (!types.ir || self.ir.is_some())
            && (!types.depth || self.depth.is_some());
        proof {
            if complete {
                assert forall|ty: FrameType| types.has(ty) implies self.slot(ty) is Some by {
                    match ty {
                        FrameType::Color => {},
                        FrameType::Ir => {},
                        FrameType::Depth => {},
                    }
                }
            } else {
                if types.color && self.color is None {
                    assert(types.has(FrameType::Color) && self.slot(FrameType::Color) is None);
                } else if types.ir && self.ir is None {
                    assert(types.has(FrameType::Ir) && self.slot(FrameType::Ir) is None);
                } else {
                    assert(types.has(FrameType::Depth) && self.slot(FrameType::Depth) is None);
                }
            }
        }
        complete
    }

    /// Get the color frame.
    pub fn color(&self) -> (frame: Option<&T>)
        ensures
            frame is Some <==> self.slot(FrameType::Color) is Some,
            frame is Some ==> *frame.unwrap() == self.slot(FrameType::Color).unwrap(),
    {
        self.color.as_ref()
    }

    /// Get the ir frame.
    pub fn ir(&self) -> (frame: Option<&T>)
        ensures
            frame is Some <==> self.slot(FrameType::Ir) is Some,
            frame is Some ==> *frame.unwrap() == self.slot(FrameType::Ir).unwrap(),
    {
        self.ir.as_ref()
    }

    /// Get the depth frame.
    pub fn depth(&self) -> (frame: Option<&T>)
        ensures
            frame is Some <==> self.slot(FrameType::Depth) is Some,
            frame is Some ==> *frame.unwrap() == self.slot(FrameType::Depth).unwrap(),
    {
        self.depth.as_ref()
    }

    /// Take the color frame out of the map.
    pub fn take_color(&mut self) -> (frame: Option<T>)
        ensures
            frame == old(self).slot(FrameType::Color),
            final(self).is_update_of(old(self), FrameType::Color, None),
    {
        self.color.take()
    }

    /// Take the ir frame out of the map.
    pub fn take_ir(&mut self) -> (frame: Option<T>)
        ensures
            frame == old(self).slot(FrameType::Ir),
            final(self).is_update_of(old(self), FrameType::Ir, None),
    {
        self.ir.take()
    }

    /// Take the depth frame out of the map.
    pub fn take_depth(&mut self) -> (frame: Option<T>)
        ensures
            frame == old(self).slot(FrameType::Depth),
            final(self).is_update_of(old(self), FrameType::Depth, None),
    {
        self.depth.take()
    }

    /// Expect the color frame. If the map holds none, an error is returned.
    pub fn expect_color(&self) -> (frame: Result<&T, NativeError>)
        ensures
            frame is Ok <==> self.slot(FrameType::Color) is Some,
            frame is Ok ==> *frame->Ok_0 == self.slot(FrameType::Color).unwrap(),
            frame is Err ==> frame->Err_0 == NativeError::FrameNotFound(FrameType::Color),
    {
        match &self.color {
            Some(frame) => Ok(frame),
            None => Err(NativeError::FrameNotFound(FrameType::Color)),
        }
    }

    /// Expect the ir frame. If the map holds none, an error is returned.
    pub fn expect_ir(&self) -> (frame: Result<&T, NativeError>)
        ensures
            frame is Ok <==> self.slot(FrameType::Ir) is Some,
            frame is Ok ==> *frame->Ok_0 == self.slot(FrameType::Ir).unwrap(),
            frame is Err ==> frame->Err_0 == NativeError::FrameNotFound(FrameType::Ir),
    {
        match &self.ir {
            Some(frame) => Ok(frame),
            None => Err(NativeError::FrameNotFound(FrameType::Ir)),
        }
    }

    /// Expect the depth frame. If the map holds none, an error is returned.
    pub fn expect_depth(&self) -> (frame: Result<&T, NativeError>)
        ensures
            frame is Ok <==> self.slot(FrameType::Depth) is Some,
            frame is Ok ==> *frame->Ok_0 == self.slot(FrameType::Depth).unwrap(),
            frame is Err ==> frame->Err_0 == NativeError::FrameNotFound(FrameType::Depth),
    {
        match &self.depth {
            Some(frame) => Ok(frame),
            None => Err(NativeError::FrameNotFound(FrameType::Depth)),
        }
    }

    /// Take the color frame out of the map. If the map holds none, an error
    /// is returned.
    pub fn expect_take_color(&mut self) -> (frame: Result<T, NativeError>)
        ensures
            frame is Ok <==> old(self).slot(FrameType::Color) is Some,
            frame is Ok ==> frame->Ok_0 == old(self).slot(FrameType::Color).unwrap(),
            frame is Err ==> frame->Err_0 == NativeError::FrameNotFound(FrameType::Color),
            final(self).is_update_of(old(self), FrameType::Color, None),
    {
        match self.color.take() {
            Some(frame) => Ok(frame),
            None => Err(NativeError::FrameNotFound(FrameType::Color)),
        }
    }

    /// Take the ir frame out of the map. If the map holds none, an error is
    /// returned.
    pub fn expect_take_ir(&mut self) -> (frame: Result<T, NativeError>)
        ensures
            frame is Ok <==> old(self).slot(FrameType::Ir) is Some,
            frame is Ok ==> frame->Ok_0 == old(self).slot(FrameType::Ir).unwrap(),
            frame is Err ==> frame->Err_0 == NativeError::FrameNotFound(FrameType::Ir),
            final(self).is_update_of(old(self), FrameType::Ir, None),
    {
        match self.ir.take() {
            Some(frame) => Ok(frame),
            None => Err(NativeError::FrameNotFound(FrameType::Ir)),
        }
    }

    /// Take the depth frame out of the map. If the map holds none, an error
    /// is returned.
    pub fn expect_take_depth(&mut self) -> (frame: Result<T, NativeError>)
        ensures
            frame is Ok <==> old(self).slot(FrameType::Depth) is Some,
            frame is Ok ==> frame->Ok_0 == old(self).slot(FrameType::Depth).unwrap(),
            frame is Err ==> frame->Err_0 == NativeError::FrameNotFound(FrameType::Depth),
            final(self).is_update_of(old(self), FrameType::Depth, None),
    {
        match self.depth.take() {
            Some(frame) => Ok(frame),
            None => Err(NativeError::FrameNotFound(FrameType::Depth)),
        }
    }
}

impl<T> Default for FrameMap<T> {
    /// An empty map.
    fn default() -> (map: FrameMap<T>)
        ensures
            map.is_empty(),
    {
        FrameMap { color: None, ir: None, depth: None }
    }
}

/// Whether the delivery of a frame of type `ty` completes the set of the
/// required frame types, where frames of the types in `present` are pending.
pub open spec fn completes(required: FrameTypes, present: FrameTypes, ty: FrameType) -> bool {
    required.is_within(present.with(ty))
}

/// The types of the pending frames after the delivery of a frame of type
/// `ty`: none where the delivery completes the set, since the complete set
/// is handed on, and otherwise what was pending and `ty`.
pub open spec fn pending_after(required: FrameTypes, present: FrameTypes, ty: FrameType) -> FrameTypes {
    if completes(required, present, ty) {
        FrameTypes::none()
    } else {
        present.with(ty)
    }
}

/// The number of sets that the deliveries of frames of the types
/// `deliveries`, in this order, complete.
pub open spec fn completions(
    required: FrameTypes,
    present: FrameTypes,
    deliveries: Seq<FrameType>,
) -> nat
    decreases deliveries.len(),
{
    if deliveries.len() == 0 {
        0
    } else {
        let first = deliveries[0];
        let rest = deliveries.subrange(1, deliveries.len() as int);
        let now: nat = if completes(required, present, first) {
            1
        } else {
            0
        };
        now + completions(required, pending_after(required, present, first), rest)
    }
}

/// A frame map holds a frame of every type of a set exactly when the set
/// lies within the types that are present in the map.
pub proof fn lemma_holds_all_iff_within_present<T>(map: &FrameMap<T>, types: FrameTypes)
    ensures
        map.holds_all(types) <==> types.is_within(map.present()),
{
    if map.holds_all(types) {
        assert(types.has(FrameType::Color) ==> map.slot(FrameType::Color) is Some);
        assert(types.has(FrameType::Ir) ==> map.slot(FrameType::Ir) is Some);
        assert(types.has(FrameType::Depth) ==> map.slot(FrameType::Depth) is Some);
    }
    if types.is_within(map.present()) {
        assert forall|ty: FrameType| types.has(ty) implies map.slot(ty) is Some by {
            match ty {
                FrameType::Color => {},
                FrameType::Ir => {},
                FrameType::Depth => {},
            }
        }
    }
}

/// As long as no frame of one of the required types is delivered, no set is
/// ever complete: however many frames of the other types arrive, in whatever
/// order.
pub proof fn lemma_missing_type_never_completes(
    required: FrameTypes,
    present: FrameTypes,
    deliveries: Seq<FrameType>,
    missing: FrameType,
)
    requires
        required.has(missing),
        !present.has(missing),
        !deliveries.contains(missing),
    ensures
        completions(required, present, deliveries) == 0,
    decreases deliveries.len(),
{
    if deliveries.len() > 0 {
        let first = deliveries[0];
        let rest = deliveries.subrange(1, deliveries.len() as int);
        assert(deliveries.contains(first));
        assert(first != missing);
        assert(!completes(required, present, first));
        assert forall|i: int| 0 <= i < rest.len() implies rest[i] != missing by {
            assert(deliveries.contains(deliveries[i + 1]));
        }
        lemma_missing_type_never_completes(
            required,
            pending_after(required, present, first),
            rest,
            missing,
        );
    }
}

/// A listener for several frame types at once. It collects the frames as
/// they arrive, one of each type, the newer in place of the older, and hands
/// the set on once a frame of every required type is there.
///
/// The set that is handed on waits in a single slot until it is taken. A set
/// that is completed while the slot is still full takes the place of the one
/// waiting there.
#[derive(Debug)]
pub struct MultiFrameListener<T> {
    types: FrameTypes,
    frames: FrameMap<T>,
    ready: Option<FrameMap<T>>,
}

impl<T> MultiFrameListener<T> {
    /// The frame types that make a set complete.
    pub closed spec fn required(&self) -> FrameTypes {
        self.types
    }

    /// The frames that have arrived for the next set.
    pub closed spec fn pending(&self) -> FrameMap<T> {
        self.frames
    }

    /// The complete set that waits to be taken, if there is one.
    pub closed spec fn ready(&self) -> Option<FrameMap<T>> {
        self.ready
    }

    /// At least one frame type is required, and the pending frames never
    /// make a complete set.
    pub open spec fn valid(&self) -> bool {
        &&& !self.required().is_empty_spec()
        &&& !self.pending().holds_all(self.required())
    }

    #[verifier::type_invariant]
    spec fn pending_is_incomplete(&self) -> bool {
        self.valid()
    }

    /// Create a new listener that waits for a frame of each of the given
    /// types. With no frame type the listener cannot be configured.
    pub fn new(frame_types: &[FrameType]) -> (listener: Result<MultiFrameListener<T>, NativeError>)
        ensures
            listener is Ok <==> frame_types@.len() > 0,
            listener is Err ==> listener->Err_0 == NativeError::InvalidConfig,
            listener is Ok ==> {
                let l = listener->Ok_0;
                &&& l.valid()
                &&& forall|ty: FrameType| l.required().has(ty) == frame_types@.contains(ty)
                &&& l.pending().is_empty()
                &&& l.ready() is None
            },
    {
        if frame_types.len() == 0 {
            return Err(NativeError::InvalidConfig);
        }
        let types = FrameTypes::new(frame_types);
        let frames: FrameMap<T> = FrameMap::new();
        proof {
            lemma_holds_all_iff_within_present(&frames, types);
        }
        Ok(MultiFrameListener { types, frames, ready: None })
    }

    /// Takes in a frame that has arrived, and answers whether it completed a
    /// set.
    ///
    /// The frame takes the place of the pending frame of its type. If a
    /// frame of every required type is then pending, these frames are moved
    /// to the slot as one set, in place of a set that may wait there, and
    /// nothing is pending any more.
    pub fn on_new_frame(&mut self, ty: FrameType, frame: T) -> (completed: bool)
        ensures
            final(self).valid(),
            final(self).required() == old(self).required(),
            completed == completes(old(self).required(), old(self).pending().present(), ty),
            final(self).pending().present() == pending_after(
                old(self).required(),
                old(self).pending().present(),
                ty,
            ),
            completed ==> {
                &&& final(self).pending().is_empty()
                &&& final(self).ready() is Some
                &&& final(self).ready().unwrap().is_update_of(&old(self).pending(), ty, Some(frame))
            },
            !completed ==> {
                &&& final(self).pending().is_update_of(&old(self).pending(), ty, Some(frame))
                &&& final(self).ready() == old(self).ready()
            },
    {
        proof {
            use_type_invariant(&*self);
        }
        let mut frames: FrameMap<T> = FrameMap::new();
        proof {
            lemma_holds_all_iff_within_present(&frames, self.types);
        }
        core::mem::swap(&mut self.frames, &mut frames);
        frames.insert(ty, frame);
        proof {
            lemma_holds_all_iff_within_present(&frames, self.types);
            assert(frames.present() == old(self).pending().present().with(ty));
        }
        if frames.contains_values(&self.types) {
            self.ready = Some(frames);
            true
        } else {
            self.frames = frames;
            false
        }
    }

    /// Takes the complete set out of the slot, if one waits there. `None`
    /// says that no set is complete yet: the caller goes on waiting.
    pub fn get_frames(&mut self) -> (frames: Option<FrameMap<T>>)
        ensures
            frames == old(self).ready(),
            final(self).ready() is None,
            final(self).pending() == old(self).pending(),
            final(self).required() == old(self).required(),
    {
        proof {
            use_type_invariant(&*self);
        }
        let mut frames: Option<FrameMap<T>> = None;
        core::mem::swap(&mut self.ready, &mut frames);
        frames
    }

    /// Takes the complete set out of the slot, or gives the wait up.
    ///
    /// `waited_ms` is how long the caller has waited for a set, and
    /// `timeout_ms` how long it is willing to. A set that waits in the slot
    /// is handed out, however long the wait was. With the slot empty the
    /// answer is `Ok(None)`, go on waiting, while the wait is shorter than
    /// the timeout, and the error `Timeout` from then on.
    pub fn get_frames_with_timeout(&mut self, waited_ms: u64, timeout_ms: u64) -> (frames: Result<
        Option<FrameMap<T>>,
        NativeError,
    >)
        ensures
            final(self).pending() == old(self).pending(),
            final(self).required() == old(self).required(),
            final(self).ready() is None,
            old(self).ready() is Some ==> frames == Ok::<Option<FrameMap<T>>, NativeError>(
                old(self).ready(),
            ),
            old(self).ready() is None && waited_ms < timeout_ms ==> frames == Ok::<
                Option<FrameMap<T>>,
                NativeError,
            >(None),
            old(self).ready() is None && waited_ms >= timeout_ms ==> frames == Err::<
                Option<FrameMap<T>>,
                NativeError,
            >(NativeError::Timeout),
    {
        proof {
            use_type_invariant(&*self);
        }
        let mut ready: Option<FrameMap<T>> = None;
        core::mem::swap(&mut self.ready, &mut ready);
        match ready {
            Some(frames) => Ok(Some(frames)),
            None => {
                if waited_ms >= timeout_ms {
                    Err(NativeError::Timeout)
                } else {
                    Ok(None)
                }
            },
        }
    }

    /// Whether a frame of type `ty` is required for a set.
    pub fn requires_type(&self, ty: FrameType) -> (r: bool)
        ensures
            r == self.required().has(ty),
    {
        self.types.contains(ty)
    }
}

} // verus!
