//! Delegation synthesis: from an attribute's argument list and a method
//! declaration, work out the call that forwards the method to a field, and
//! write that call out as the method's new body.

mod laws;
mod model;
mod render;
mod synth;

pub use model::{AttrArg, CallModel, DelegateError, Delegation, DelegatedFn, ForwardCall, MethodDecl, Param};
pub use synth::{delegate, delegate_call, delegate_impl, parse_args_ident, parse_delegatee, parse_delegation, parse_delegation_args, parse_delegation_call};
pub use render::{render_body, render_call};
pub use laws::{lemma_forwarded_names_concat, lemma_pattern_param_dropped, lemma_plain_names_all_forwarded, lemma_receiver_not_forwarded};
