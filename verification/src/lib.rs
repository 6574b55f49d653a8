//! A static-analysis pass over an ECMAScript-style syntax tree that flags
//! member accesses resolving to a configured set of sensitive dotted paths
//! (such as `process.env`) whenever the access goes through optional chaining
//! or object destructuring. Such patterns defeat build-time tools that rely on
//! literal, statically traceable dotted paths, so the pass rejects them with
//! structured diagnostics.

pub mod ast;
pub mod path_matcher;
pub mod path_resolver;
pub mod detector;
pub mod diagnostics;
