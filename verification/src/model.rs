//! The model configuration and the manager that owns the one loaded
//! inference engine for the process lifetime. The engine's scratch state
//! is not reentrant, so the manager serializes access: a detect pass may
//! begin only after an exclusive permit is granted, and the permit is
//! given back when the pass ends.

use vstd::prelude::*;

verus! {

/// The fixed configuration the engine is loaded with: execution target,
/// numeric precision, the accepted input size range as a
/// [minimum, optimal, maximum] triple per spatial dimension, and the
/// two-stage confidence thresholds (their exact algorithmic role is the
/// engine's own affair; they are carried as an opaque pair).
#[derive(Clone, Copy, PartialEq, Eq, Structural, Debug)]
pub struct ModelConfig {
    pub min_dim: u32,
    pub opt_dim: u32,
    pub max_dim: u32,
    pub first_conf_permille: u32,
    pub second_conf_permille: u32,
    pub use_fp16: bool,
    pub cpu_only: bool,
}

/// A failure while setting the model up: fatal to the process, never
/// surfaced per-request.
#[derive(Clone, Copy, PartialEq, Eq, Structural, Debug)]
pub enum ModelLoadError {
    /// The configuration values are not a usable combination.
    InvalidConfig,
}

impl ModelConfig {
    /// The size triple must be ordered with a positive minimum, and a
    /// confidence threshold is a fraction of one, in thousandths.
    pub open spec fn wf(self) -> bool {
        &&& 0 < self.min_dim <= self.opt_dim <= self.max_dim
        &&& self.first_conf_permille <= 1000
        &&& self.second_conf_permille <= 1000
    }

    /// Whether a w-by-h image falls inside the accepted input size range.
    pub open spec fn accepts_spec(self, w: nat, h: nat) -> bool {
        &&& self.min_dim <= w <= self.max_dim
        &&& self.min_dim <= h <= self.max_dim
    }

    /// Builds a configuration, rejecting unusable value combinations.
    pub fn new(
        min_dim: u32,
        opt_dim: u32,
        max_dim: u32,
        first_conf_permille: u32,
        second_conf_permille: u32,
        use_fp16: bool,
        cpu_only: bool,
    ) -> (r: Result<ModelConfig, ModelLoadError>)
        ensures
            r matches Ok(c) ==> c == (ModelConfig {
                min_dim,
                opt_dim,
                max_dim,
                first_conf_permille,
                second_conf_permille,
                use_fp16,
                cpu_only,
            }) && c.wf(),
            r is Ok <==> (ModelConfig {
                min_dim,
                opt_dim,
                max_dim,
                first_conf_permille,
                second_conf_permille,
                use_fp16,
                cpu_only,
            }).wf(),
            r matches Err(e) ==> e == ModelLoadError::InvalidConfig,
    {
        if 0 < min_dim && min_dim <= opt_dim && opt_dim <= max_dim && first_conf_permille <= 1000
            && second_conf_permille <= 1000 {
            Ok(
                ModelConfig {
                    min_dim,
                    opt_dim,
                    max_dim,
                    first_conf_permille,
                    second_conf_permille,
                    use_fp16,
                    cpu_only,
                },
            )
        } else {
            Err(ModelLoadError::InvalidConfig)
        }
    }

    /// The configuration the service is deployed with: CPU execution,
    /// half-precision arithmetic, spatial dimensions accepted between 416
    /// and 800 pixels with 640 optimal, and a 0.4/0.15 two-stage
    /// confidence pair, carried in thousandths.
    pub fn standard() -> (r: ModelConfig)
        ensures
            r == (ModelConfig {
                min_dim: 416,
                opt_dim: 640,
                max_dim: 800,
                first_conf_permille: 400,
                second_conf_permille: 150,
                use_fp16: true,
                cpu_only: true,
            }),
            r.wf(),
    {
        ModelConfig {
            min_dim: 416,
            opt_dim: 640,
            max_dim: 800,
            first_conf_permille: 400,
            second_conf_permille: 150,
            use_fp16: true,
            cpu_only: true,
        }
    }

    /// Whether a w-by-h image falls inside the accepted input size range.
    pub fn accepts(&self, w: u32, h: u32) -> (r: bool)
        ensures
            r == self.accepts_spec(w as nat, h as nat),
    {
        self.min_dim <= w && w <= self.max_dim && self.min_dim <= h && h <= self.max_dim
    }
}

/// Owns the single loaded engine's slot for the process lifetime and
/// guarantees exclusive access per detect pass. The engine itself lives
/// outside this type; the manager is the authority on whether a pass may
/// begin.
pub struct ModelManager {
    config: ModelConfig,
    busy: bool,
}

impl ModelManager {
    /// Whether a detect pass is in flight. While this holds, no second
    /// pass can be granted.
    pub closed spec fn busy(self) -> bool {
        self.busy
    }

    /// The fixed configuration, immutable after construction.
    pub closed spec fn config_spec(self) -> ModelConfig {
        self.config
    }

    pub fn new(config: ModelConfig) -> (r: ModelManager)
        requires
            config.wf(),
        ensures
            r.config_spec() == config,
            !r.busy(),
    {
        ModelManager { config, busy: false }
    }

    /// Asks for the exclusive detect permit. The grant succeeds exactly
    /// when no pass is in flight; a granted permit leaves the manager
    /// busy until [`ModelManager::release`]. Together these clauses are
    /// the serialization law: at most one invocation is ever inside a
    /// detect pass.
    pub fn try_acquire(&mut self) -> (granted: bool)
        ensures
            final(self).config_spec() == old(self).config_spec(),
            granted == !old(self).busy(),
            final(self).busy(),
    {
        if self.busy {
            false
        } else {
            self.busy = true;
            true
        }
    }

    /// Gives the exclusive detect permit back.
    pub fn release(&mut self)
        requires
            old(self).busy(),
        ensures
            final(self).config_spec() == old(self).config_spec(),
            !final(self).busy(),
    {
        self.busy = false;
    }

    /// Whether a detect pass is in flight, for callers outside the
    /// verified world.
    pub fn is_busy(&self) -> (r: bool)
        ensures
            r == self.busy(),
    {
        self.busy
    }

    /// Whether the engine accepts a w-by-h input under this manager's
    /// configuration.
    pub fn accepts(&self, w: u32, h: u32) -> (r: bool)
        ensures
            r == self.config_spec().accepts_spec(w as nat, h as nat),
    {
        self.config.accepts(w, h)
    }
}

} // verus!
