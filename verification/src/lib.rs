//! Staged construction of method specifications.
//!
//! A *method specification* is a reusable summary of one function's symbolic
//! behaviour: its argument bindings, the assumptions that must hold before a
//! call, a binding for the return value, and the assertions that follow a
//! call. A verification backend owns the actual specification objects; this
//! crate exposes only opaque, copyable handles to them and the staged
//! protocol that assembles one:
//!
//! `builder_new` → `builder_add_arg`* → `builder_gather_assumes` →
//! `builder_set_return` → `builder_gather_asserts` → `builder_finish`.
//!
//! Each staged operation consumes a builder value and returns the advanced
//! one; the old value must not be reused. The stage discipline is captured in
//! the contracts below, so a misordered call is rejected when the caller is
//! verified. Without a backend attached, the operations are identity-like
//! no-ops and `spec_pretty_print` returns a fixed placeholder.

use vstd::prelude::*;

verus! {

/// The stage a builder under construction has reached.
pub ghost enum Stage {
    /// Fresh builder: argument bindings may still be added.
    ArgsOpen,
    /// Assumptions have been collected; awaiting the return binding.
    AssumesGathered,
    /// The return value has been bound; awaiting assertion collection.
    ReturnSet,
    /// Assertions have been collected; the builder is ready to finish.
    AssertsGathered,
}

/// Abstract state of a builder: its stage and how many arguments are bound.
pub ghost struct BuilderModel {
    pub stage: Stage,
    pub args: nat,
}

/// Abstract state of a finished specification: how many arguments it binds.
pub ghost struct SpecModel {
    pub args: nat,
}

/// The state of a fresh builder.
pub open spec fn new_model() -> BuilderModel {
    BuilderModel { stage: Stage::ArgsOpen, args: 0 }
}

/// Binding one more argument keeps the builder open for further arguments.
pub open spec fn add_arg_model(m: BuilderModel) -> BuilderModel {
    BuilderModel { stage: Stage::ArgsOpen, args: m.args + 1 }
}

/// Collecting assumptions closes the argument-binding stage.
pub open spec fn gather_assumes_model(m: BuilderModel) -> BuilderModel {
    BuilderModel { stage: Stage::AssumesGathered, args: m.args }
}

/// Binding the return value advances past the assumption stage.
pub open spec fn set_return_model(m: BuilderModel) -> BuilderModel {
    BuilderModel { stage: Stage::ReturnSet, args: m.args }
}

/// Collecting assertions closes the return-binding stage.
pub open spec fn gather_asserts_model(m: BuilderModel) -> BuilderModel {
    BuilderModel { stage: Stage::AssertsGathered, args: m.args }
}

/// Finishing turns a fully staged builder into a specification.
pub open spec fn finish_model(m: BuilderModel) -> SpecModel {
    SpecModel { args: m.args }
}

/// Opaque handle to a finished method specification.
///
/// The backend owns the specification itself; this handle is a small,
/// freely copyable token standing for it. Copying the handle never copies
/// or mutates the underlying specification. The token field gives the
/// handle a nonzero runtime size and is never read by callers.
#[derive(Clone, Copy)]
pub struct MethodSpec {
    #[allow(dead_code)]
    token: u8,
    model: Ghost<SpecModel>,
}

impl View for MethodSpec {
    type V = SpecModel;

    closed spec fn view(&self) -> SpecModel {
        self.model@
    }
}

/// Opaque handle to a method specification under construction.
///
/// A builder value is consumed by each staged operation, which returns the
/// advanced value; the consumed value must not be passed to any stage again.
/// Copies of one builder value are interchangeable references to the same
/// backend object.
#[derive(Clone, Copy)]
pub struct MethodSpecBuilder {
    token: u8,
    model: Ghost<BuilderModel>,
}

impl View for MethodSpecBuilder {
    type V = BuilderModel;

    closed spec fn view(&self) -> BuilderModel {
        self.model@
    }
}

/// Renders a specification for diagnostics.
///
/// Only an attached backend can see inside a specification, so without one
/// this always returns the fixed placeholder text and never fails; no
/// content is synthesized on the caller's side.
pub fn spec_pretty_print(ms: MethodSpec) -> (r: &'static str)
    ensures
        r@ == "(unknown MethodSpec)"@,
{
    let _ = ms;
    "(unknown MethodSpec)"
}

/// Creates a fresh builder for a specification of the function type `F`,
/// ready to accept argument bindings. Always succeeds.
pub fn builder_new<F>() -> (b: MethodSpecBuilder)
    ensures
        b@ == new_model(),
{
    MethodSpecBuilder { token: 0, model: Ghost(new_model()) }
}

/// Binds the next formal argument slot to a symbolic placeholder associated
/// with `x`. May be called any number of times, including zero, before
/// assumptions are gathered; each call binds exactly one argument, in
/// declaration order. The referenced value is neither inspected nor
/// retained: no ownership is taken.
pub fn builder_add_arg<T>(msb: MethodSpecBuilder, x: &T) -> (r: MethodSpecBuilder)
    requires
        msb@.stage == Stage::ArgsOpen,
    ensures
        r@ == add_arg_model(msb@),
{
    let _ = x;
    MethodSpecBuilder { token: msb.token, model: Ghost(add_arg_model(msb@)) }
}

/// Closes the argument-binding stage and collects all assumptions
/// accumulated so far into the specification. Called exactly once, after
/// the last argument is bound.
pub fn builder_gather_assumes(msb: MethodSpecBuilder) -> (r: MethodSpecBuilder)
    requires
        msb@.stage == Stage::ArgsOpen,
    ensures
        r@ == gather_assumes_model(msb@),
{
    MethodSpecBuilder { token: msb.token, model: Ghost(gather_assumes_model(msb@)) }
}

/// Binds the specification's return value to a symbolic placeholder
/// associated with `x`. Called exactly once, after assumptions are
/// gathered. The referenced value is neither inspected nor retained.
pub fn builder_set_return<T>(msb: MethodSpecBuilder, x: &T) -> (r: MethodSpecBuilder)
    requires
        msb@.stage == Stage::AssumesGathered,
    ensures
        r@ == set_return_model(msb@),
{
    let _ = x;
    MethodSpecBuilder { token: msb.token, model: Ghost(set_return_model(msb@)) }
}

/// Closes the return-binding stage and collects all assertions accumulated
/// so far into the specification. Called exactly once, after the return
/// value is bound.
pub fn builder_gather_asserts(msb: MethodSpecBuilder) -> (r: MethodSpecBuilder)
    requires
        msb@.stage == Stage::ReturnSet,
    ensures
        r@ == gather_asserts_model(msb@),
{
    MethodSpecBuilder { token: msb.token, model: Ghost(gather_asserts_model(msb@)) }
}

/// Finalizes the specification, consuming the builder and yielding the
/// unique kind of handle to a finished specification. The builder value is
/// not valid for further use afterward.
pub fn builder_finish(msb: MethodSpecBuilder) -> (h: MethodSpec)
    requires
        msb@.stage == Stage::AssertsGathered,
    ensures
        h@ == finish_model(msb@),
{
    MethodSpec { token: msb.token, model: Ghost(finish_model(msb@)) }
}

/// The state of a fresh builder after `n` argument bindings.
pub open spec fn args_added(n: nat) -> BuilderModel
    decreases n,
{
    if n == 0 {
        new_model()
    } else {
        add_arg_model(args_added((n - 1) as nat))
    }
}

/// Law: for any number of argument bindings, including zero, the full
/// pipeline goes through. After `n` `builder_add_arg` steps the builder is
/// still accepting arguments, so `builder_gather_assumes` applies; each
/// later stage's result satisfies the next stage's precondition in turn;
/// and the finished specification binds exactly the `n` arguments.
pub proof fn lemma_stage_order(n: nat)
    ensures
        args_added(n).stage == Stage::ArgsOpen,
        args_added(n).args == n,
        gather_assumes_model(args_added(n)).stage == Stage::AssumesGathered,
        set_return_model(gather_assumes_model(args_added(n))).stage == Stage::ReturnSet,
        gather_asserts_model(set_return_model(gather_assumes_model(args_added(n)))).stage
            == Stage::AssertsGathered,
        finish_model(
            gather_asserts_model(set_return_model(gather_assumes_model(args_added(n)))),
        ).args == n,
    decreases n,
{
    if n > 0 {
        lemma_stage_order((n - 1) as nat);
    }
}

/// Law: copies are interchangeable. A copy of a builder is equal to the
/// original, so the two have the same abstract state; and every staged
/// operation advances builders of equal abstract state to equal abstract
/// states, so using only the copy in the remaining stages yields the same
/// observable outcome as using the original.
pub proof fn lemma_copy_independence(b: MethodSpecBuilder, c: MethodSpecBuilder)
    requires
        b@ == c@,
    ensures
        add_arg_model(b@) == add_arg_model(c@),
        gather_assumes_model(b@) == gather_assumes_model(c@),
        set_return_model(b@) == set_return_model(c@),
        gather_asserts_model(b@) == gather_asserts_model(c@),
        finish_model(b@) == finish_model(c@),
{
}

} // verus!
