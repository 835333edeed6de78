//! Cancellation sources and the tokens that observe them.
//!
//! A [`CancellationSource`] stands for a signal that is raised once, when the
//! future it was made for produces its output. Sources take their identities
//! from a [`SourceIssuer`], so the sources of one issuer are told apart. Every
//! [`CancellationToken`] taken from a source observes that same signal: it is
//! cancelled exactly when its source has requested cancellation. Its
//! [`CancellationFuture`] is ready then, and also once the source is dropped
//! without a signal, unless it was made to treat that as no signal at all.

pub mod source;
pub mod token;

pub use source::{CancellationSource, SourceIssuer};
pub use token::{CancellationAsync, CancellationFuture, CancellationToken, Poll};
