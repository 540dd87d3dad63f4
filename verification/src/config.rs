//! The typing configuration and the two ways to change it.

use vstd::prelude::*;

verus! {

/// Upper bound of every delay, in milliseconds. A requested speed `s` stands
/// for the delay `MAX_DELAY - s`.
pub const MAX_DELAY: u32 = 400;

/// A requested speed range, as the user interface states it.
#[derive(Debug, Clone, Copy, PartialEq, Eq)]
pub struct UpdateSpeedArgs {
    pub min: u32,
    pub max: u32,
}

impl UpdateSpeedArgs {
    /// The speed ranges that can be turned into a delay range.
    pub open spec fn in_range(self) -> bool {
        self.min <= self.max <= MAX_DELAY
    }
}

/// What a `TypeConfig` holds, as numbers.
pub struct TypeConfigView {
    pub min_delay: nat,
    pub max_delay: nat,
    pub error_rate: nat,
}

impl TypeConfigView {
    /// The delay bounds are ordered and do not exceed `MAX_DELAY`.
    pub open spec fn wf(self) -> bool {
        self.min_delay <= self.max_delay <= MAX_DELAY
    }

    /// The configuration after a speed request that is in range: the bounds
    /// are mirrored at `MAX_DELAY`, the error rate stays.
    pub open spec fn with_speed(self, args: UpdateSpeedArgs) -> TypeConfigView {
        TypeConfigView {
            min_delay: (MAX_DELAY - args.max) as nat,
            max_delay: (MAX_DELAY - args.min) as nat,
            error_rate: self.error_rate,
        }
    }

    /// The configuration with another error rate: the delays stay.
    pub open spec fn with_error_rate(self, rate: u32) -> TypeConfigView {
        TypeConfigView { error_rate: rate as nat, ..self }
    }
}

/// A speed range that is in range gives delay bounds that are in order: a
/// higher speed is a shorter delay, so the highest speed gives the lower
/// bound.
pub proof fn lemma_speed_gives_ordered_delays(config: TypeConfigView, args: UpdateSpeedArgs)
    requires
        args.in_range(),
    ensures
        config.with_speed(args).min_delay == MAX_DELAY - args.max,
        config.with_speed(args).max_delay == MAX_DELAY - args.min,
        config.with_speed(args).min_delay <= config.with_speed(args).max_delay,
        config.with_speed(args).wf(),
{
}

/// The speed and the error rate are set independently: neither command
/// touches what the other one set, in either order.
pub proof fn lemma_speed_and_error_rate_are_independent(
    config: TypeConfigView,
    args: UpdateSpeedArgs,
    rate: u32,
)
    ensures
        config.with_error_rate(rate).with_speed(args).error_rate == rate,
        config.with_speed(args).with_error_rate(rate).min_delay == config.with_speed(
            args,
        ).min_delay,
        config.with_speed(args).with_error_rate(rate).max_delay == config.with_speed(
            args,
        ).max_delay,
        config.with_error_rate(rate).with_speed(args) == config.with_speed(args).with_error_rate(
            rate,
        ),
{
}

/// Why a configuration command was refused.
#[derive(Debug, Clone, Copy, PartialEq, Eq)]
pub enum ConfigError {
    /// The requested speed range is not `min <= max <= MAX_DELAY`.
    SpeedOutOfRange { min: u32, max: u32 },
    /// No file text could be had that holds the configuration.
    Unserializable,
}

/// The typing parameters shared with the automation subprocess.
#[derive(Debug, Clone, Copy, PartialEq, Eq)]
pub struct TypeConfig {
    min_delay: u32,
    max_delay: u32,
    error_rate: u32,
}

impl View for TypeConfig {
    type V = TypeConfigView;

    closed spec fn view(&self) -> TypeConfigView {
        TypeConfigView {
            min_delay: self.min_delay as nat,
            max_delay: self.max_delay as nat,
            error_rate: self.error_rate as nat,
        }
    }
}

/// The numbers that a configuration holds fit 32 bits.
pub proof fn lemma_view_fits(config: TypeConfig)
    ensures
        config@.min_delay <= u32::MAX,
        config@.max_delay <= u32::MAX,
        config@.error_rate <= u32::MAX,
{
}

impl TypeConfig {
    #[verifier::type_invariant]
    spec fn ordered(self) -> bool {
        self.min_delay <= self.max_delay <= MAX_DELAY
    }

    /// A configuration with the given values, if its delay bounds are valid.
    pub fn new(min_delay: u32, max_delay: u32, error_rate: u32) -> (made: Option<TypeConfig>)
        ensures
            made is Some <==> min_delay <= max_delay <= MAX_DELAY,
            made matches Some(c) ==> c@ == (TypeConfigView {
                min_delay: min_delay as nat,
                max_delay: max_delay as nat,
                error_rate: error_rate as nat,
            }),
    {
        if min_delay <= max_delay && max_delay <= MAX_DELAY {
            Some(TypeConfig { min_delay, max_delay, error_rate })
        } else {
            None
        }
    }

    pub fn min_delay(&self) -> (d: u32)
        ensures
            d == self@.min_delay,
            self@.wf(),
    {
        proof {
            use_type_invariant(self);
        }
        self.min_delay
    }

    pub fn max_delay(&self) -> (d: u32)
        ensures
            d == self@.max_delay,
            self@.wf(),
    {
        proof {
            use_type_invariant(self);
        }
        self.max_delay
    }

    pub fn error_rate(&self) -> (r: u32)
        ensures
            r == self@.error_rate,
    {
        self.error_rate
    }

    /// Replaces the delay bounds by the mirror image of a speed range.
    /// A range that is not `min <= max <= MAX_DELAY` is refused and changes
    /// nothing.
    pub fn set_speed(&mut self, args: UpdateSpeedArgs) -> (res: Result<(), ConfigError>)
        ensures
            args.in_range() ==> res is Ok && final(self)@ == old(self)@.with_speed(args),
            !args.in_range() ==> res == Err::<(), ConfigError>(
                ConfigError::SpeedOutOfRange { min: args.min, max: args.max },
            ) && final(self)@ == old(self)@,
            final(self)@.wf(),
    {
        proof {
            use_type_invariant(&*self);
        }
        if args.min <= args.max && args.max <= MAX_DELAY {
            *self = TypeConfig {
                min_delay: MAX_DELAY - args.max,
                max_delay: MAX_DELAY - args.min,
                error_rate: self.error_rate,
            };
            Ok(())
        } else {
            Err(ConfigError::SpeedOutOfRange { min: args.min, max: args.max })
        }
    }

    /// Stores the error rate as given.
    pub fn set_error_rate(&mut self, rate: u32)
        ensures
            final(self)@ == old(self)@.with_error_rate(rate),
    {
        proof {
            use_type_invariant(&*self);
        }
        *self = TypeConfig { min_delay: self.min_delay, max_delay: self.max_delay, error_rate: rate };
    }
}

impl Default for TypeConfig {
    fn default() -> (c: TypeConfig)
        ensures
            c@ == (TypeConfigView { min_delay: 20, max_delay: 25, error_rate: 0 }),
    {
        TypeConfig { min_delay: 20, max_delay: 25, error_rate: 0 }
    }
}

} // verus!
