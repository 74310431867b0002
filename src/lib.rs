//! Classic object-oriented design patterns with verified contracts.
//!
//! The observer registry is the core: ordered, non-owning subscriptions that
//! are pruned lazily and survive observers unregistering during a pass. The
//! other modules are small examples of the factory, strategy and singleton
//! patterns, whose console output is returned as lines of text.

pub mod abstract_factory;
pub mod factory_method;
pub mod observer;
pub mod singleton;
pub mod strategy;
pub mod text;
