//! Configuring a prism context before it starts.
use vstd::prelude::*;

verus! {

/// The availability polling parameters of a context's configuration.
#[derive(Debug, Clone, Copy, PartialEq, Eq, Structural)]
pub struct PollSettings {
    /// The base interval, in milliseconds, between availability scans.
    pub poll_interval_ms: u32,
    /// How many consecutive agreeing samples confirm an availability change.
    pub debounce_samples: u32,
    /// The upper bound, in milliseconds, of the backed-off scan interval.
    pub backoff_max_ms: u32,
    /// Whether polling pauses while the system is suspended.
    pub auto_power_manage: bool,
}

/// A builder for a prism context.
///
/// `R` is the registry handle a context may be bound to, and `H` the hook
/// that hears about changes in backend availability. Every setting left
/// alone keeps the value of prism's default configuration.
pub struct Builder<R, H> {
    registry: Option<R>,
    poll_interval_ms: Option<u32>,
    debounce_samples: Option<u32>,
    backoff_max_ms: Option<u32>,
    auto_power_manage: Option<bool>,
    availability: Option<H>,
}

impl<R, H> Builder<R, H> {
    /// The registry the context will be bound to, if one was chosen.
    pub closed spec fn chosen_registry(&self) -> Option<R> {
        self.registry
    }

    /// The chosen poll interval, if any.
    pub closed spec fn chosen_poll_interval_ms(&self) -> Option<u32> {
        self.poll_interval_ms
    }

    /// The chosen number of debounce samples, if any.
    pub closed spec fn chosen_debounce_samples(&self) -> Option<u32> {
        self.debounce_samples
    }

    /// The chosen backoff bound, if any.
    pub closed spec fn chosen_backoff_max_ms(&self) -> Option<u32> {
        self.backoff_max_ms
    }

    /// The chosen power management setting, if any.
    pub closed spec fn chosen_auto_power_manage(&self) -> Option<bool> {
        self.auto_power_manage
    }

    /// The availability hook, if one was registered.
    pub closed spec fn chosen_availability(&self) -> Option<H> {
        self.availability
    }

    /// A builder that changes nothing in prism's default configuration.
    pub fn new() -> (b: Self)
        ensures
            b.chosen_registry() is None,
            b.chosen_poll_interval_ms() is None,
            b.chosen_debounce_samples() is None,
            b.chosen_backoff_max_ms() is None,
            b.chosen_auto_power_manage() is None,
            b.chosen_availability() is None,
    {
        Builder {
            registry: None,
            poll_interval_ms: None,
            debounce_samples: None,
            backoff_max_ms: None,
            auto_power_manage: None,
            availability: None,
        }
    }

    /// Binds the context to `registry` instead of prism's default set of
    /// backends. The builder keeps its own clone of the handle.
    pub fn registry(self, registry: &R) -> (b: Self)
        where
            R: Clone,
        ensures
            b.chosen_registry() matches Some(kept) && cloned(*registry, kept),
            b.chosen_poll_interval_ms() == self.chosen_poll_interval_ms(),
            b.chosen_debounce_samples() == self.chosen_debounce_samples(),
            b.chosen_backoff_max_ms() == self.chosen_backoff_max_ms(),
            b.chosen_auto_power_manage() == self.chosen_auto_power_manage(),
            b.chosen_availability() == self.chosen_availability(),
    {
        Builder { registry: Some(registry.clone()), ..self }
    }

    /// Sets how often, in milliseconds, prism polls backend availability.
    pub fn poll_interval_ms(self, ms: u32) -> (b: Self)
        ensures
            b.chosen_registry() == self.chosen_registry(),
            b.chosen_poll_interval_ms() == Some(ms),
            b.chosen_debounce_samples() == self.chosen_debounce_samples(),
            b.chosen_backoff_max_ms() == self.chosen_backoff_max_ms(),
            b.chosen_auto_power_manage() == self.chosen_auto_power_manage(),
            b.chosen_availability() == self.chosen_availability(),
    {
        Builder { poll_interval_ms: Some(ms), ..self }
    }

    /// Sets how many consecutive identical samples an availability change
    /// must survive before it is reported.
    pub fn debounce_samples(self, samples: u32) -> (b: Self)
        ensures
            b.chosen_registry() == self.chosen_registry(),
            b.chosen_poll_interval_ms() == self.chosen_poll_interval_ms(),
            b.chosen_debounce_samples() == Some(samples),
            b.chosen_backoff_max_ms() == self.chosen_backoff_max_ms(),
            b.chosen_auto_power_manage() == self.chosen_auto_power_manage(),
            b.chosen_availability() == self.chosen_availability(),
    {
        Builder { debounce_samples: Some(samples), ..self }
    }

    /// Sets the maximum poll interval, in milliseconds, that availability
    /// polling backs off to while idle.
    pub fn backoff_max_ms(self, ms: u32) -> (b: Self)
        ensures
            b.chosen_registry() == self.chosen_registry(),
            b.chosen_poll_interval_ms() == self.chosen_poll_interval_ms(),
            b.chosen_debounce_samples() == self.chosen_debounce_samples(),
            b.chosen_backoff_max_ms() == Some(ms),
            b.chosen_auto_power_manage() == self.chosen_auto_power_manage(),
            b.chosen_availability() == self.chosen_availability(),
    {
        Builder { backoff_max_ms: Some(ms), ..self }
    }

    /// Enables or disables automatic pausing of availability polling while
    /// the system is suspended.
    pub fn auto_power_manage(self, enabled: bool) -> (b: Self)
        ensures
            b.chosen_registry() == self.chosen_registry(),
            b.chosen_poll_interval_ms() == self.chosen_poll_interval_ms(),
            b.chosen_debounce_samples() == self.chosen_debounce_samples(),
            b.chosen_backoff_max_ms() == self.chosen_backoff_max_ms(),
            b.chosen_auto_power_manage() == Some(enabled),
            b.chosen_availability() == self.chosen_availability(),
    {
        Builder { auto_power_manage: Some(enabled), ..self }
    }

    /// Registers a hook invoked whenever a backend becomes available or
    /// unavailable, replacing any registered before.
    pub fn on_availability<F>(self, hook: F) -> (b: Builder<R, F>)
        ensures
            b.chosen_registry() == self.chosen_registry(),
            b.chosen_poll_interval_ms() == self.chosen_poll_interval_ms(),
            b.chosen_debounce_samples() == self.chosen_debounce_samples(),
            b.chosen_backoff_max_ms() == self.chosen_backoff_max_ms(),
            b.chosen_auto_power_manage() == self.chosen_auto_power_manage(),
            b.chosen_availability() == Some(hook),
    {
        Builder {
            registry: self.registry,
            poll_interval_ms: self.poll_interval_ms,
            debounce_samples: self.debounce_samples,
            backoff_max_ms: self.backoff_max_ms,
            auto_power_manage: self.auto_power_manage,
            availability: Some(hook),
        }
    }

    /// The polling parameters of the configuration to start prism with:
    /// each one chosen here, else the one of prism's `defaults`.
    pub fn settings(&self, defaults: PollSettings) -> (s: PollSettings)
        ensures
            s.poll_interval_ms == match self.chosen_poll_interval_ms() {
                Some(ms) => ms,
                None => defaults.poll_interval_ms,
            },
            s.debounce_samples == match self.chosen_debounce_samples() {
                Some(n) => n,
                None => defaults.debounce_samples,
            },
            s.backoff_max_ms == match self.chosen_backoff_max_ms() {
                Some(ms) => ms,
                None => defaults.backoff_max_ms,
            },
            s.auto_power_manage == match self.chosen_auto_power_manage() {
                Some(on) => on,
                None => defaults.auto_power_manage,
            },
    {
        let mut settings = defaults;
        if let Some(ms) = self.poll_interval_ms {
            settings.poll_interval_ms = ms;
        }
        if let Some(samples) = self.debounce_samples {
            settings.debounce_samples = samples;
        }
        if let Some(ms) = self.backoff_max_ms {
            settings.backoff_max_ms = ms;
        }
        if let Some(enabled) = self.auto_power_manage {
            settings.auto_power_manage = enabled;
        }
        settings
    }

    /// Hands over the registry and the availability hook, to start a context
    /// with.
    pub fn into_parts(self) -> (parts: (Option<R>, Option<H>))
        ensures
            parts.0 == self.chosen_registry(),
            parts.1 == self.chosen_availability(),
    {
        (self.registry, self.availability)
    }
}

} // verus!
