//! The depth-processing configuration of a device.

use vstd::prelude::*;

use crate::error::{ArgumentFault, NativeError};
use crate::float_bits::{is_nan, is_positive, less_than, order_key, FloatBits};

verus! {

/// The bit pattern of 0.5, the default minimum depth in meters.
pub const DEFAULT_MIN_DEPTH_BITS: u32 = 0x3f00_0000;

/// The bit pattern of 4.5, the default maximum depth in meters.
pub const DEFAULT_MAX_DEPTH_BITS: u32 = 0x4090_0000;

/// Configuration of the depth processing: the depth range in meters and the
/// two noise filters.
///
/// The minimum depth is always greater than zero and less than the maximum
/// depth. A configuration has to be attached to a device session before the
/// session starts streaming.
#[derive(Clone, Copy, Debug, PartialEq, Eq, Structural)]
pub struct Config {
    min_depth: FloatBits,
    max_depth: FloatBits,
    enable_bilateral_filter: bool,
    enable_edge_aware_filter: bool,
}

impl Config {
    /// The minimum depth.
    pub closed spec fn min_depth(&self) -> FloatBits {
        self.min_depth
    }

    /// The maximum depth.
    pub closed spec fn max_depth(&self) -> FloatBits {
        self.max_depth
    }

    /// Whether the bilateral filter is enabled.
    pub closed spec fn bilateral_filter(&self) -> bool {
        self.enable_bilateral_filter
    }

    /// Whether the edge-aware filter is enabled.
    pub closed spec fn edge_aware_filter(&self) -> bool {
        self.enable_edge_aware_filter
    }

    /// The range invariant: `0 < min_depth < max_depth`.
    pub open spec fn valid(&self) -> bool {
        &&& is_positive(self.min_depth().bits)
        &&& less_than(self.min_depth().bits, self.max_depth().bits)
    }

    #[verifier::type_invariant]
    spec fn range_is_ordered(&self) -> bool {
        self.valid()
    }

    /// What `set_min_depth(value)` answers on a configuration whose maximum
    /// depth is `max_depth`.
    pub open spec fn min_depth_verdict(max_depth: FloatBits, value: FloatBits) -> Result<
        (),
        NativeError,
    > {
        if !is_positive(value.bits) {
            Err(NativeError::InvalidArgument(ArgumentFault::MinDepthNotPositive))
        } else if !less_than(value.bits, max_depth.bits) {
            Err(NativeError::InvalidArgument(ArgumentFault::MinDepthNotBelowMax))
        } else {
            Ok(())
        }
    }

    /// What `set_max_depth(value)` answers on a configuration whose minimum
    /// depth is `min_depth`.
    pub open spec fn max_depth_verdict(min_depth: FloatBits, value: FloatBits) -> Result<
        (),
        NativeError,
    > {
        if !less_than(min_depth.bits, value.bits) {
            Err(NativeError::InvalidArgument(ArgumentFault::MaxDepthNotAboveMin))
        } else {
            Ok(())
        }
    }

    /// Creates the default configuration: a depth range of 0.5 m to 4.5 m and
    /// both filters enabled.
    pub fn new() -> (config: Config)
        ensures
            config.valid(),
            config.min_depth().bits == DEFAULT_MIN_DEPTH_BITS,
            config.max_depth().bits == DEFAULT_MAX_DEPTH_BITS,
            config.bilateral_filter(),
            config.edge_aware_filter(),
    {
        Config {
            min_depth: FloatBits { bits: DEFAULT_MIN_DEPTH_BITS },
            max_depth: FloatBits { bits: DEFAULT_MAX_DEPTH_BITS },
            enable_bilateral_filter: true,
            enable_edge_aware_filter: true,
        }
    }

    /// Get the minimum depth.
    pub fn get_min_depth(&self) -> (depth: FloatBits)
        ensures
            depth == self.min_depth(),
            self.valid(),
    {
        proof {
            use_type_invariant(self);
        }
        self.min_depth
    }

    /// Set the minimum depth. The value has to be greater than zero and less
    /// than the current maximum depth; a value that is not, a NaN included,
    /// is rejected and leaves the configuration as it was.
    pub fn set_min_depth(&mut self, min_depth: FloatBits) -> (r: Result<(), NativeError>)
        ensures
            r == Self::min_depth_verdict(old(self).max_depth(), min_depth),
            r is Ok ==> final(self).min_depth() == min_depth,
            r is Err ==> final(self).min_depth() == old(self).min_depth(),
            final(self).max_depth() == old(self).max_depth(),
            final(self).bilateral_filter() == old(self).bilateral_filter(),
            final(self).edge_aware_filter() == old(self).edge_aware_filter(),
            final(self).valid(),
    {
        proof {
            use_type_invariant(&*self);
        }
        if !min_depth.is_positive() {
            return Err(NativeError::InvalidArgument(ArgumentFault::MinDepthNotPositive));
        }
        if !min_depth.less_than(&self.max_depth) {
            return Err(NativeError::InvalidArgument(ArgumentFault::MinDepthNotBelowMax));
        }
        self.min_depth = min_depth;
        Ok(())
    }

    /// Get the maximum depth.
    pub fn get_max_depth(&self) -> (depth: FloatBits)
        ensures
            depth == self.max_depth(),
            self.valid(),
    {
        proof {
            use_type_invariant(self);
        }
        self.max_depth
    }

    /// Set the maximum depth. The value has to be greater than the current
    /// minimum depth; a value that is not, a NaN included, is rejected and
    /// leaves the configuration as it was.
    pub fn set_max_depth(&mut self, max_depth: FloatBits) -> (r: Result<(), NativeError>)
        ensures
            r == Self::max_depth_verdict(old(self).min_depth(), max_depth),
            r is Ok ==> final(self).max_depth() == max_depth,
            r is Err ==> final(self).max_depth() == old(self).max_depth(),
            final(self).min_depth() == old(self).min_depth(),
            final(self).bilateral_filter() == old(self).bilateral_filter(),
            final(self).edge_aware_filter() == old(self).edge_aware_filter(),
            final(self).valid(),
    {
        proof {
            use_type_invariant(&*self);
        }
        if !self.min_depth.less_than(&max_depth) {
            return Err(NativeError::InvalidArgument(ArgumentFault::MaxDepthNotAboveMin));
        }
        self.max_depth = max_depth;
        Ok(())
    }

    /// Get whether the bilateral filter is enabled.
    pub fn get_enable_bilateral_filter(&self) -> (enabled: bool)
        ensures
            enabled == self.bilateral_filter(),
    {
        self.enable_bilateral_filter
    }

    /// Set whether the bilateral filter is enabled. This filter removes some
    /// noise from the depth data.
    pub fn set_enable_bilateral_filter(&mut self, enable: bool)
        ensures
            final(self).bilateral_filter() == enable,
            final(self).edge_aware_filter() == old(self).edge_aware_filter(),
            final(self).min_depth() == old(self).min_depth(),
            final(self).max_depth() == old(self).max_depth(),
    {
        proof {
            use_type_invariant(&*self);
        }
        self.enable_bilateral_filter = enable;
    }

    /// Get whether the edge-aware filter is enabled.
    pub fn get_enable_edge_aware_filter(&self) -> (enabled: bool)
        ensures
            enabled == self.edge_aware_filter(),
    {
        self.enable_edge_aware_filter
    }

    /// Set whether the edge-aware filter is enabled. This filter removes
    /// pixels on edges, where time-of-flight data is noisy.
    pub fn set_enable_edge_aware_filter(&mut self, enable: bool)
        ensures
            final(self).edge_aware_filter() == enable,
            final(self).bilateral_filter() == old(self).bilateral_filter(),
            final(self).min_depth() == old(self).min_depth(),
            final(self).max_depth() == old(self).max_depth(),
    {
        proof {
            use_type_invariant(&*self);
        }
        self.enable_edge_aware_filter = enable;
    }
}

/// The comparison `a <= b` of two encoded numbers: false when either is a NaN.
pub open spec fn at_most(a: u32, b: u32) -> bool {
    !is_nan(a) && !is_nan(b) && order_key(a) <= order_key(b)
}

/// Setting the minimum depth to a number fails exactly when the number is at
/// most zero or at least the current maximum depth; a NaN always fails.
pub proof fn lemma_min_depth_rejected_iff_out_of_range(max_depth: FloatBits, value: FloatBits)
    requires
        !is_nan(max_depth.bits),
    ensures
        is_nan(value.bits) ==> Config::min_depth_verdict(max_depth, value) is Err,
        !is_nan(value.bits) ==> (Config::min_depth_verdict(max_depth, value) is Err <==> (at_most(
            value.bits,
            0,
        ) || at_most(max_depth.bits, value.bits))),
{
}

/// Setting the maximum depth to a number fails exactly when the number is at
/// most the current minimum depth; a NaN always fails.
pub proof fn lemma_max_depth_rejected_iff_out_of_range(min_depth: FloatBits, value: FloatBits)
    requires
        !is_nan(min_depth.bits),
    ensures
        is_nan(value.bits) ==> Config::max_depth_verdict(min_depth, value) is Err,
        !is_nan(value.bits) ==> (Config::max_depth_verdict(min_depth, value) is Err <==> at_most(
            value.bits,
            min_depth.bits,
        )),
{
}

} // verus!
