//! S-expression values for a deterministic guest program: the value model with
//! its equality and rendering, the operations a foreign caller is offered on
//! values and word vectors, field access through resolved references, and the
//! one-shot exchange of values with the host.

pub mod boundary;
pub mod channel;
pub mod equality;
pub mod field;
pub mod render;
pub mod sexpr;
pub mod text;
pub mod vector;
pub mod wire;
