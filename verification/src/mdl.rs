//! Mocs and the models that are built from them.
pub mod drawables;
pub mod loading;
pub mod moc;
pub mod model;
