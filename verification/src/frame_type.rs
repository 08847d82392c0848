//! The three independently arriving streams of a device.

use vstd::prelude::*;

verus! {

/// The type of a frame: which stream of the device delivered it.
#[derive(Clone, Copy, Debug, PartialEq, Eq, Structural, PartialOrd, Ord, Hash)]
pub enum FrameType {
    /// A color frame.
    Color,
    /// A depth frame.
    Depth,
    /// An infrared frame.
    Ir,
}

impl FrameType {
    /// The code by which the native driver names the frame type.
    pub open spec fn native_code(self) -> u32 {
        match self {
            FrameType::Color => 1,
            FrameType::Ir => 2,
            FrameType::Depth => 4,
        }
    }

    /// The frame type that the native driver names by `code`, if there is one.
    pub open spec fn of_native(code: u32) -> Option<FrameType> {
        if code == 1 {
            Some(FrameType::Color)
        } else if code == 2 {
            Some(FrameType::Ir)
        } else if code == 4 {
            Some(FrameType::Depth)
        } else {
            None
        }
    }

    /// Returns the code by which the native driver names the frame type.
    pub fn to_native(&self) -> (code: u32)
        ensures
            code == self.native_code(),
    {
        match self {
            FrameType::Color => 1,
            FrameType::Ir => 2,
            FrameType::Depth => 4,
        }
    }

    /// Decodes a frame type from its native code. Codes other than 1, 2 and 4
    /// name no frame type.
    pub fn from_native(code: u32) -> (ty: Option<FrameType>)
        ensures
            ty == Self::of_native(code),
    {
        if code == 1 {
            Some(FrameType::Color)
        } else if code == 2 {
            Some(FrameType::Ir)
        } else if code == 4 {
            Some(FrameType::Depth)
        } else {
            None
        }
    }
}

/// Encoding a frame type and decoding the code gives the frame type back, and
/// a code that decodes encodes to itself.
pub proof fn lemma_frame_type_code_round_trip(ty: FrameType, code: u32)
    ensures
        FrameType::of_native(ty.native_code()) == Some(ty),
        FrameType::of_native(code) is Some ==> FrameType::of_native(code).unwrap().native_code()
            == code,
{
}

/// An item occurs in a sequence extended by `last` exactly when it occurred
/// before or is `last`.
proof fn lemma_contains_after_push(s: Seq<FrameType>, last: FrameType, ty: FrameType)
    ensures
        s.push(last).contains(ty) == (s.contains(ty) || ty == last),
{
    let after = s.push(last);
    if s.contains(ty) {
        let j = choose|j: int| 0 <= j < s.len() && s[j] == ty;
        assert(after[j] == ty);
    }
    if ty == last {
        assert(after[s.len() as int] == ty);
    }
    if after.contains(ty) {
        let j = choose|j: int| 0 <= j < after.len() && after[j] == ty;
        if j < s.len() {
            assert(s[j] == ty);
        }
    }
}

/// A set of frame types, one flag for each.
#[derive(Clone, Copy, Debug, PartialEq, Eq, Structural)]
pub struct FrameTypes {
    pub color: bool,
    pub ir: bool,
    pub depth: bool,
}

impl FrameTypes {
    /// Whether `ty` is in the set.
    pub open spec fn has(self, ty: FrameType) -> bool {
        match ty {
            FrameType::Color => self.color,
            FrameType::Ir => self.ir,
            FrameType::Depth => self.depth,
        }
    }

    /// Whether the set holds no frame type.
    pub open spec fn is_empty_spec(self) -> bool {
        !self.color && !self.ir && !self.depth
    }

    /// The set with `ty` added.
    pub open spec fn with(self, ty: FrameType) -> FrameTypes {
        match ty {
            FrameType::Color => FrameTypes { color: true, ..self },
            FrameType::Ir => FrameTypes { ir: true, ..self },
            FrameType::Depth => FrameTypes { depth: true, ..self },
        }
    }

    /// Whether every frame type of `self` is in `other`.
    pub open spec fn is_within(self, other: FrameTypes) -> bool {
        &&& self.color ==> other.color
        &&& self.ir ==> other.ir
        &&& self.depth ==> other.depth
    }

    /// The set without any frame type.
    pub open spec fn none() -> FrameTypes {
        FrameTypes { color: false, ir: false, depth: false }
    }

    /// Collects the frame types that occur in `types`.
    pub fn new(types: &[FrameType]) -> (set: FrameTypes)
        ensures
            forall|ty: FrameType| set.has(ty) == types@.contains(ty),
            set.is_empty_spec() == (types@.len() == 0),
    {
        let mut set = FrameTypes { color: false, ir: false, depth: false };
        let mut i: usize = 0;
        while i < types.len()
            invariant
                i <= types@.len(),
                set.color == types@.subrange(0, i as int).contains(FrameType::Color),
                set.ir == types@.subrange(0, i as int).contains(FrameType::Ir),
                set.depth == types@.subrange(0, i as int).contains(FrameType::Depth),
            decreases types@.len() - i,
        {
            let t = types[i];
            proof {
                lemma_contains_after_push(types@.subrange(0, i as int), t, FrameType::Color);
                lemma_contains_after_push(types@.subrange(0, i as int), t, FrameType::Ir);
                lemma_contains_after_push(types@.subrange(0, i as int), t, FrameType::Depth);
                assert(types@.subrange(0, i + 1) == types@.subrange(0, i as int).push(t));
            }
            match t {
                FrameType::Color => {
                    set.color = true;
                },
                FrameType::Ir => {
                    set.ir = true;
                },
                FrameType::Depth => {
                    set.depth = true;
                },
            }
            i += 1;
        }
        proof {
            assert(types@.subrange(0, i as int) == types@);
            assert forall|ty: FrameType| set.has(ty) == types@.contains(ty) by {
                match ty {
                    FrameType::Color => {},
                    FrameType::Ir => {},
                    FrameType::Depth => {},
                }
            }
            if types@.len() > 0 {
                assert(types@.contains(types@[0]));
                assert(set.has(types@[0]));
            }
        }
        set
    }

    /// Whether `ty` is in the set.
    pub fn contains(&self, ty: FrameType) -> (r: bool)
        ensures
            r == self.has(ty),
    {
        match ty {
            FrameType::Color => self.color,
            FrameType::Ir => self.ir,
            FrameType::Depth => self.depth,
        }
    }

    /// Whether the set holds no frame type.
    pub fn is_empty(&self) -> (r: bool)
        ensures
            r == self.is_empty_spec(),
    {
        !self.color && !self.ir && !self.depth
    }
}

} // verus!
