//! Enforced Mara defaults.
//!
//! Using the toolkit at all yields a correct Mara application: themed,
//! with the permanent top bar, on a sane shelf-layout baseline. The
//! rule for each default is:
//!
//! > **If the app did it this pass or the previous pass, Mara stays
//! > out of the way. Otherwise Mara does it.**
//!
//! The one-pass hysteresis exists because apps commonly render the bar
//! *after* their content each frame. The very first pass a context is
//! seen is a grace pass for the same reason. The only escape hatch
//! from the fallback bar is the explicit per-frame opt-out.
//!
//! This module holds the whole policy as state decisions over the
//! context's store and pass number; rendering the theme, the shelf
//! baseline and the fallback bar is the host's part.

use crate::memory::{spec_lookup, MaraMemory, MemoryKey, MemoryKind, MemoryValue};
use crate::vocab::{fnv_chars, fnv_step, id_of, id_with, lemma_fnv_push, Id, FNV_OFFSET, PART_SEPARATOR};
use vstd::prelude::*;

verus! {

/// The store key of one enforcement stamp.
pub open spec fn spec_enforce_key(name: Seq<char>) -> Id {
    id_with(id_of("mara.enforce"@), name)
}

fn key(name: &str) -> (k: Id)
    ensures
        k == spec_enforce_key(name@),
{
    Id::pair("mara.enforce", name)
}

fn app_shell_pass_key() -> (k: Id)
    ensures
        k == spec_enforce_key("app_shell_pass"@),
{
    key("app_shell_pass")
}

/// Where the pass in which the app last applied a theme is stamped.
pub fn app_theme_pass_key() -> (k: Id)
    ensures
        k == spec_enforce_key("app_theme_pass"@),
{
    key("app_theme_pass")
}

fn app_shelf_pass_key() -> (k: Id)
    ensures
        k == spec_enforce_key("app_shelf_pass"@),
{
    key("app_shelf_pass")
}

fn enforcing_key() -> (k: Id)
    ensures
        k == spec_enforce_key("active"@),
{
    key("active")
}

fn grace_pass_key() -> (k: Id)
    ensures
        k == spec_enforce_key("grace_pass"@),
{
    key("grace_pass")
}

/// Where the pass in which the fallback bar last rendered is stamped.
pub fn enforced_shell_pass_key() -> (k: Id)
    ensures
        k == spec_enforce_key("enforced_shell_pass"@),
{
    key("enforced_shell_pass")
}

fn shell_opt_out_pass_key() -> (k: Id)
    ensures
        k == spec_enforce_key("shell_opt_out_pass"@),
{
    key("shell_opt_out_pass")
}

/// Where the fallback bar's own chrome state is kept between passes.
pub fn fallback_state_key() -> (k: Id)
    ensures
        k == spec_enforce_key("fallback_shell_state"@),
{
    key("fallback_shell_state")
}

/// Whether Mara itself is applying enforced defaults right now.
pub open spec fn spec_enforcing(temp: Map<MemoryKey, MemoryValue>) -> bool {
    spec_lookup(temp, spec_enforce_key("active"@), MemoryKind::Flag) == Some(MemoryValue::Flag(true))
}

/// The pass stamped under `key`, if any.
pub open spec fn stamped_pass(temp: Map<MemoryKey, MemoryValue>, key: Id) -> Option<u64> {
    match spec_lookup(temp, key, MemoryKind::Pass) {
        Some(MemoryValue::Pass(p)) => Some(p),
        _ => None,
    }
}

/// A stamp is fresh when it was made this pass or the previous one.
pub open spec fn spec_fresh(temp: Map<MemoryKey, MemoryValue>, key: Id, pass: u64) -> bool {
    match stamped_pass(temp, key) {
        Some(s) => s.saturating_add(1) >= pass,
        None => false,
    }
}

/// `true` while Mara itself is rendering/applying enforced defaults, so
/// the enforced work never counts as "the app did it".
pub fn enforcing(memory: &MaraMemory) -> (r: bool)
    ensures
        r == spec_enforcing(memory.temp()),
{
    match memory.get_temp(enforcing_key(), MemoryKind::Flag) {
        Some(MemoryValue::Flag(on)) => on,
        _ => false,
    }
}

pub fn set_enforcing(memory: &mut MaraMemory, on: bool)
    ensures
        final(memory).temp() == old(memory).temp().insert(
            (spec_enforce_key("active"@), MemoryKind::Flag),
            MemoryValue::Flag(on),
        ),
        final(memory).persisted() == old(memory).persisted(),
{
    memory.set_temp(enforcing_key(), MemoryValue::Flag(on));
}

/// The store after the app stamps `key` in pass `pass`: unchanged while
/// Mara is enforcing.
pub open spec fn stamped(temp: Map<MemoryKey, MemoryValue>, key: Id, pass: u64) -> Map<
    MemoryKey,
    MemoryValue,
> {
    if spec_enforcing(temp) {
        temp
    } else {
        temp.insert((key, MemoryKind::Pass), MemoryValue::Pass(pass))
    }
}

fn stamp(memory: &mut MaraMemory, pass: u64, key: Id)
    ensures
        final(memory).temp() == stamped(old(memory).temp(), key, pass),
        final(memory).persisted() == old(memory).persisted(),
{
    if enforcing(memory) {
        return;
    }
    memory.set_temp(key, MemoryValue::Pass(pass));
}

/// Stamp read: `true` when the action under `key` was performed this
/// pass or the previous one.
pub fn fresh(memory: &MaraMemory, pass: u64, key: Id) -> (r: bool)
    ensures
        r == spec_fresh(memory.temp(), key, pass),
{
    match memory.get_temp(key, MemoryKind::Pass) {
        Some(MemoryValue::Pass(s)) => s.saturating_add(1) >= pass,
        _ => false,
    }
}

/// The app rendered the shell bar itself this pass.
pub fn mark_app_shell_shown(memory: &mut MaraMemory, pass: u64)
    ensures
        final(memory).temp() == stamped(old(memory).temp(), spec_enforce_key("app_shell_pass"@), pass),
        final(memory).persisted() == old(memory).persisted(),
{
    stamp(memory, pass, app_shell_pass_key());
}

/// The app applied a theme this pass.
pub fn mark_app_theme_applied(memory: &mut MaraMemory, pass: u64)
    ensures
        final(memory).temp() == stamped(old(memory).temp(), spec_enforce_key("app_theme_pass"@), pass),
        final(memory).persisted() == old(memory).persisted(),
{
    stamp(memory, pass, app_theme_pass_key());
}

/// The app (or a real shelf render) published a shelf layout this pass.
pub fn mark_app_shelf_published(memory: &mut MaraMemory, pass: u64)
    ensures
        final(memory).temp() == stamped(old(memory).temp(), spec_enforce_key("app_shelf_pass"@), pass),
        final(memory).persisted() == old(memory).persisted(),
{
    stamp(memory, pass, app_shelf_pass_key());
}

/// The pass in which the fallback bar last rendered, if it ever did.
pub fn shell_enforced_pass(memory: &MaraMemory) -> (r: Option<u64>)
    ensures
        r == stamped_pass(memory.temp(), spec_enforce_key("enforced_shell_pass"@)),
{
    match memory.get_temp(enforced_shell_pass_key(), MemoryKind::Pass) {
        Some(MemoryValue::Pass(p)) => Some(p),
        _ => None,
    }
}

/// Explicit, deliberate opt-out from the enforced top bar for the
/// current pass; it must be repeated every pass the app runs bar-less.
pub fn opt_out_shell(memory: &mut MaraMemory, pass: u64)
    ensures
        final(memory).temp() == old(memory).temp().insert(
            (spec_enforce_key("shell_opt_out_pass"@), MemoryKind::Pass),
            MemoryValue::Pass(pass),
        ),
        final(memory).persisted() == old(memory).persisted(),
{
    memory.set_temp(shell_opt_out_pass_key(), MemoryValue::Pass(pass));
}

/// `true` when the app opted out of the enforced bar this pass or the
/// previous one.
pub fn shell_opted_out(memory: &MaraMemory, pass: u64) -> (r: bool)
    ensures
        r == spec_fresh(memory.temp(), spec_enforce_key("shell_opt_out_pass"@), pass),
{
    fresh(memory, pass, shell_opt_out_pass_key())
}

/// The first pass enforcement ran on this context (recorded on the
/// first call), given what the store held before.
pub open spec fn first_seen(temp: Map<MemoryKey, MemoryValue>, pass: u64) -> u64 {
    match stamped_pass(temp, spec_enforce_key("grace_pass"@)) {
        Some(first) => first,
        None => pass,
    }
}

/// Whether the fallback bar is due in pass `pass`: the app neither
/// rendered its bar nor opted out this pass or the previous one, and
/// this is not the grace pass.
pub open spec fn spec_bar_due(temp: Map<MemoryKey, MemoryValue>, pass: u64) -> bool {
    !spec_fresh(temp, spec_enforce_key("app_shell_pass"@), pass) && !spec_fresh(
        temp,
        spec_enforce_key("shell_opt_out_pass"@),
        pass,
    ) && first_seen(temp, pass) != pass
}

/// What a host must do this pass to uphold the defaults.
#[derive(Clone, Copy, Debug, PartialEq, Eq, Structural)]
pub struct FallbackPlan {
    /// Publish the full-viewport no-shelf layout (the app published
    /// none this pass or the previous one). Publish it while enforcing
    /// so it does not count as the app's own.
    pub publish_shelf_baseline: bool,
    /// Render the fallback bar and stamp this pass.
    pub bar_due: Option<u64>,
}

/// Whether the fallback bar should render this pass, and whether the
/// shelf baseline needs publishing. Records the grace pass the first
/// time a context is seen.
pub fn fallback_bar_due(memory: &mut MaraMemory, pass: u64) -> (plan: FallbackPlan)
    ensures
        plan.publish_shelf_baseline == !spec_fresh(
            old(memory).temp(),
            spec_enforce_key("app_shelf_pass"@),
            pass,
        ),
        plan.bar_due == (if spec_bar_due(old(memory).temp(), pass) {
            Some(pass)
        } else {
            None
        }),
        final(memory).temp() == (if stamped_pass(
            old(memory).temp(),
            spec_enforce_key("grace_pass"@),
        ) is Some {
            old(memory).temp()
        } else {
            old(memory).temp().insert(
                (spec_enforce_key("grace_pass"@), MemoryKind::Pass),
                MemoryValue::Pass(pass),
            )
        }),
        final(memory).persisted() == old(memory).persisted(),
{
    let publish_shelf_baseline = !fresh(memory, pass, app_shelf_pass_key());
    let shell_fresh = fresh(memory, pass, app_shell_pass_key());
    let opted_out = shell_opted_out(memory, pass);
    let first = match memory.get_temp(grace_pass_key(), MemoryKind::Pass) {
        Some(MemoryValue::Pass(first)) => first,
        _ => {
            memory.set_temp(grace_pass_key(), MemoryValue::Pass(pass));
            pass
        },
    };
    if shell_fresh || opted_out {
        return FallbackPlan { publish_shelf_baseline, bar_due: None };
    }
    if first == pass {
        return FallbackPlan { publish_shelf_baseline, bar_due: None };
    }
    FallbackPlan { publish_shelf_baseline, bar_due: Some(pass) }
}

/// Stamp that the fallback bar rendered in pass `pass`.
pub fn record_fallback_rendered(memory: &mut MaraMemory, pass: u64)
    ensures
        final(memory).temp() == old(memory).temp().insert(
            (spec_enforce_key("enforced_shell_pass"@), MemoryKind::Pass),
            MemoryValue::Pass(pass),
        ),
        final(memory).persisted() == old(memory).persisted(),
{
    memory.set_temp(enforced_shell_pass_key(), MemoryValue::Pass(pass));
}


/// Everything a host must do this pass to uphold the defaults.
#[derive(Clone, Copy, Debug, PartialEq, Eq, Structural)]
pub struct EnforcePlan {
    /// Apply the active Mara theme (the app applied none this pass or
    /// the previous one). Apply it while enforcing.
    pub apply_theme: bool,
    /// What the shelf baseline and the fallback bar need.
    pub fallback: FallbackPlan,
}

/// Decide the enforced defaults for pass `pass`. Nothing is due while
/// Mara is already enforcing (entry points reached from inside the
/// enforcement do not recurse).
pub fn plan_enforced_defaults(memory: &mut MaraMemory, pass: u64) -> (plan: EnforcePlan)
    ensures
        spec_enforcing(old(memory).temp()) ==> plan == (EnforcePlan {
            apply_theme: false,
            fallback: FallbackPlan { publish_shelf_baseline: false, bar_due: None },
        }) && final(memory).temp() == old(memory).temp(),
        !spec_enforcing(old(memory).temp()) ==> {
            &&& plan.apply_theme == !spec_fresh(
                old(memory).temp(),
                spec_enforce_key("app_theme_pass"@),
                pass,
            )
            &&& plan.fallback.publish_shelf_baseline == !spec_fresh(
                old(memory).temp(),
                spec_enforce_key("app_shelf_pass"@),
                pass,
            )
            &&& plan.fallback.bar_due == (if spec_bar_due(old(memory).temp(), pass) {
                Some(pass)
            } else {
                None
            })
            &&& final(memory).temp() == (if stamped_pass(
                old(memory).temp(),
                spec_enforce_key("grace_pass"@),
            ) is Some {
                old(memory).temp()
            } else {
                old(memory).temp().insert(
                    (spec_enforce_key("grace_pass"@), MemoryKind::Pass),
                    MemoryValue::Pass(pass),
                )
            })
        },
        final(memory).persisted() == old(memory).persisted(),
{
    if enforcing(memory) {
        return EnforcePlan {
            apply_theme: false,
            fallback: FallbackPlan { publish_shelf_baseline: false, bar_due: None },
        };
    }
    let apply_theme = !fresh(memory, pass, app_theme_pass_key());
    let fallback = fallback_bar_due(memory, pass);
    EnforcePlan { apply_theme, fallback }
}

/// An app that renders its own bar in a pass is never overruled by
/// the fallback in that pass or the next one.
pub proof fn law_app_bar_suppresses_fallback(temp: Map<MemoryKey, MemoryValue>, pass: u64, later: u64)
    requires
        !spec_enforcing(temp),
        later == pass || later == pass + 1,
    ensures
        !spec_bar_due(stamped(temp, spec_enforce_key("app_shell_pass"@), pass), later),
{
    let t = stamped(temp, spec_enforce_key("app_shell_pass"@), pass);
    assert(stamped_pass(t, spec_enforce_key("app_shell_pass"@)) == Some(pass));
}

/// The explicit opt-out suppresses the fallback in the pass it is made
/// and the next one.
pub proof fn law_opt_out_suppresses_fallback(temp: Map<MemoryKey, MemoryValue>, pass: u64, later: u64)
    requires
        later == pass || later == pass + 1,
    ensures
        !spec_bar_due(
            temp.insert(
                (spec_enforce_key("shell_opt_out_pass"@), MemoryKind::Pass),
                MemoryValue::Pass(pass),
            ),
            later,
        ),
{
    let t = temp.insert(
        (spec_enforce_key("shell_opt_out_pass"@), MemoryKind::Pass),
        MemoryValue::Pass(pass),
    );
    assert(stamped_pass(t, spec_enforce_key("shell_opt_out_pass"@)) == Some(pass));
}

/// The first pass a context is seen is a grace pass: the fallback bar
/// is never due in it.
pub proof fn law_grace_pass(temp: Map<MemoryKey, MemoryValue>, pass: u64)
    requires
        stamped_pass(temp, spec_enforce_key("grace_pass"@)) is None,
    ensures
        !spec_bar_due(temp, pass),
{
}

/// Once the grace pass is over, an app that neither renders its bar
/// nor opts out (this pass or the previous one) gets the fallback bar.
pub proof fn law_fallback_after_grace(temp: Map<MemoryKey, MemoryValue>, grace: u64, pass: u64)
    requires
        stamped_pass(temp, spec_enforce_key("grace_pass"@)) == Some(grace),
        grace != pass,
        !spec_fresh(temp, spec_enforce_key("app_shell_pass"@), pass),
        !spec_fresh(temp, spec_enforce_key("shell_opt_out_pass"@), pass),
    ensures
        spec_bar_due(temp, pass),
{
}

/// Stamps made while Mara enforces leave the store untouched, so the
/// enforced work never counts as the app's own.
pub proof fn law_enforced_work_never_stamps(temp: Map<MemoryKey, MemoryValue>, key: Id, pass: u64)
    requires
        spec_enforcing(temp),
    ensures
        stamped(temp, key, pass) == temp,
{
}




/// The hash of the enforcement keys' shared prefix.
proof fn lemma_enforce_prefix()
    ensures
        fnv_chars(FNV_OFFSET, "mara.enforce"@) == 0x58780ee4ede3d77eu64,
{
    reveal_strlit("mara.enforce");
    let s0 = Seq::<char>::empty();
    let s1 = s0.push('m');
    let s2 = s1.push('a');
    let s3 = s2.push('r');
    let s4 = s3.push('a');
    let s5 = s4.push('.');
    let s6 = s5.push('e');
    let s7 = s6.push('n');
    let s8 = s7.push('f');
    let s9 = s8.push('o');
    let s10 = s9.push('r');
    let s11 = s10.push('c');
    let s12 = s11.push('e');
    assert("mara.enforce"@ =~= s12);
    lemma_fnv_push(FNV_OFFSET, s0, 'm');
    lemma_fnv_push(FNV_OFFSET, s1, 'a');
    lemma_fnv_push(FNV_OFFSET, s2, 'r');
    lemma_fnv_push(FNV_OFFSET, s3, 'a');
    lemma_fnv_push(FNV_OFFSET, s4, '.');
    lemma_fnv_push(FNV_OFFSET, s5, 'e');
    lemma_fnv_push(FNV_OFFSET, s6, 'n');
    lemma_fnv_push(FNV_OFFSET, s7, 'f');
    lemma_fnv_push(FNV_OFFSET, s8, 'o');
    lemma_fnv_push(FNV_OFFSET, s9, 'r');
    lemma_fnv_push(FNV_OFFSET, s10, 'c');
    lemma_fnv_push(FNV_OFFSET, s11, 'e');
    assert(fnv_step(fnv_step(fnv_step(fnv_step(fnv_step(fnv_step(fnv_step(fnv_step(fnv_step(fnv_step(fnv_step(fnv_step(0xcbf29ce484222325u64, 0x6du64), 0x61u64), 0x72u64), 0x61u64), 0x2eu64), 0x65u64), 0x6eu64), 0x66u64), 0x6fu64), 0x72u64), 0x63u64), 0x65u64) == 0x58780ee4ede3d77eu64) by (bit_vector);
}

/// The hash of the `app_shell_pass` key after the prefix.
proof fn lemma_app_shell_key_hash()
    ensures
        fnv_chars(0x37d8b0003a26f9d3u64, "app_shell_pass"@) == 0xdb180e249c886bc9u64,
{
    reveal_strlit("app_shell_pass");
    let s0 = Seq::<char>::empty();
    let s1 = s0.push('a');
    let s2 = s1.push('p');
    let s3 = s2.push('p');
    let s4 = s3.push('_');
    let s5 = s4.push('s');
    let s6 = s5.push('h');
    let s7 = s6.push('e');
    let s8 = s7.push('l');
    let s9 = s8.push('l');
    let s10 = s9.push('_');
    let s11 = s10.push('p');
    let s12 = s11.push('a');
    let s13 = s12.push('s');
    let s14 = s13.push('s');
    assert("app_shell_pass"@ =~= s14);
    lemma_fnv_push(0x37d8b0003a26f9d3u64, s0, 'a');
    lemma_fnv_push(0x37d8b0003a26f9d3u64, s1, 'p');
    lemma_fnv_push(0x37d8b0003a26f9d3u64, s2, 'p');
    lemma_fnv_push(0x37d8b0003a26f9d3u64, s3, '_');
    lemma_fnv_push(0x37d8b0003a26f9d3u64, s4, 's');
    lemma_fnv_push(0x37d8b0003a26f9d3u64, s5, 'h');
    lemma_fnv_push(0x37d8b0003a26f9d3u64, s6, 'e');
    lemma_fnv_push(0x37d8b0003a26f9d3u64, s7, 'l');
    lemma_fnv_push(0x37d8b0003a26f9d3u64, s8, 'l');
    lemma_fnv_push(0x37d8b0003a26f9d3u64, s9, '_');
    lemma_fnv_push(0x37d8b0003a26f9d3u64, s10, 'p');
    lemma_fnv_push(0x37d8b0003a26f9d3u64, s11, 'a');
    lemma_fnv_push(0x37d8b0003a26f9d3u64, s12, 's');
    lemma_fnv_push(0x37d8b0003a26f9d3u64, s13, 's');
    assert(fnv_step(fnv_step(fnv_step(fnv_step(fnv_step(fnv_step(fnv_step(fnv_step(fnv_step(fnv_step(fnv_step(fnv_step(fnv_step(fnv_step(0x37d8b0003a26f9d3u64, 0x61u64), 0x70u64), 0x70u64), 0x5fu64), 0x73u64), 0x68u64), 0x65u64), 0x6cu64), 0x6cu64), 0x5fu64), 0x70u64), 0x61u64), 0x73u64), 0x73u64) == 0xdb180e249c886bc9u64) by (bit_vector);
}

/// The hash of the `shell_opt_out_pass` key after the prefix.
proof fn lemma_opt_out_key_hash()
    ensures
        fnv_chars(0x37d8b0003a26f9d3u64, "shell_opt_out_pass"@) == 0x1c8d5ce883e1b8c6u64,
{
    reveal_strlit("shell_opt_out_pass");
    let s0 = Seq::<char>::empty();
    let s1 = s0.push('s');
    let s2 = s1.push('h');
    let s3 = s2.push('e');
    let s4 = s3.push('l');
    let s5 = s4.push('l');
    let s6 = s5.push('_');
    let s7 = s6.push('o');
    let s8 = s7.push('p');
    let s9 = s8.push('t');
    let s10 = s9.push('_');
    let s11 = s10.push('o');
    let s12 = s11.push('u');
    let s13 = s12.push('t');
    let s14 = s13.push('_');
    let s15 = s14.push('p');
    let s16 = s15.push('a');
    let s17 = s16.push('s');
    let s18 = s17.push('s');
    assert("shell_opt_out_pass"@ =~= s18);
    lemma_fnv_push(0x37d8b0003a26f9d3u64, s0, 's');
    lemma_fnv_push(0x37d8b0003a26f9d3u64, s1, 'h');
    lemma_fnv_push(0x37d8b0003a26f9d3u64, s2, 'e');
    lemma_fnv_push(0x37d8b0003a26f9d3u64, s3, 'l');
    lemma_fnv_push(0x37d8b0003a26f9d3u64, s4, 'l');
    lemma_fnv_push(0x37d8b0003a26f9d3u64, s5, '_');
    lemma_fnv_push(0x37d8b0003a26f9d3u64, s6, 'o');
    lemma_fnv_push(0x37d8b0003a26f9d3u64, s7, 'p');
    lemma_fnv_push(0x37d8b0003a26f9d3u64, s8, 't');
    lemma_fnv_push(0x37d8b0003a26f9d3u64, s9, '_');
    lemma_fnv_push(0x37d8b0003a26f9d3u64, s10, 'o');
    lemma_fnv_push(0x37d8b0003a26f9d3u64, s11, 'u');
    lemma_fnv_push(0x37d8b0003a26f9d3u64, s12, 't');
    lemma_fnv_push(0x37d8b0003a26f9d3u64, s13, '_');
    lemma_fnv_push(0x37d8b0003a26f9d3u64, s14, 'p');
    lemma_fnv_push(0x37d8b0003a26f9d3u64, s15, 'a');
    lemma_fnv_push(0x37d8b0003a26f9d3u64, s16, 's');
    lemma_fnv_push(0x37d8b0003a26f9d3u64, s17, 's');
    assert(fnv_step(fnv_step(fnv_step(fnv_step(fnv_step(fnv_step(fnv_step(fnv_step(fnv_step(fnv_step(fnv_step(fnv_step(fnv_step(fnv_step(fnv_step(fnv_step(fnv_step(fnv_step(0x37d8b0003a26f9d3u64, 0x73u64), 0x68u64), 0x65u64), 0x6cu64), 0x6cu64), 0x5fu64), 0x6fu64), 0x70u64), 0x74u64), 0x5fu64), 0x6fu64), 0x75u64), 0x74u64), 0x5fu64), 0x70u64), 0x61u64), 0x73u64), 0x73u64) == 0x1c8d5ce883e1b8c6u64) by (bit_vector);
}

/// The hash of the `grace_pass` key after the prefix.
proof fn lemma_grace_key_hash()
    ensures
        fnv_chars(0x37d8b0003a26f9d3u64, "grace_pass"@) == 0x592c46283654713u64,
{
    reveal_strlit("grace_pass");
    let s0 = Seq::<char>::empty();
    let s1 = s0.push('g');
    let s2 = s1.push('r');
    let s3 = s2.push('a');
    let s4 = s3.push('c');
    let s5 = s4.push('e');
    let s6 = s5.push('_');
    let s7 = s6.push('p');
    let s8 = s7.push('a');
    let s9 = s8.push('s');
    let s10 = s9.push('s');
    assert("grace_pass"@ =~= s10);
    lemma_fnv_push(0x37d8b0003a26f9d3u64, s0, 'g');
    lemma_fnv_push(0x37d8b0003a26f9d3u64, s1, 'r');
    lemma_fnv_push(0x37d8b0003a26f9d3u64, s2, 'a');
    lemma_fnv_push(0x37d8b0003a26f9d3u64, s3, 'c');
    lemma_fnv_push(0x37d8b0003a26f9d3u64, s4, 'e');
    lemma_fnv_push(0x37d8b0003a26f9d3u64, s5, '_');
    lemma_fnv_push(0x37d8b0003a26f9d3u64, s6, 'p');
    lemma_fnv_push(0x37d8b0003a26f9d3u64, s7, 'a');
    lemma_fnv_push(0x37d8b0003a26f9d3u64, s8, 's');
    lemma_fnv_push(0x37d8b0003a26f9d3u64, s9, 's');
    assert(fnv_step(fnv_step(fnv_step(fnv_step(fnv_step(fnv_step(fnv_step(fnv_step(fnv_step(fnv_step(0x37d8b0003a26f9d3u64, 0x67u64), 0x72u64), 0x61u64), 0x63u64), 0x65u64), 0x5fu64), 0x70u64), 0x61u64), 0x73u64), 0x73u64) == 0x592c46283654713u64) by (bit_vector);
}

/// The hash of the `enforced_shell_pass` key after the prefix.
proof fn lemma_enforced_shell_key_hash()
    ensures
        fnv_chars(0x37d8b0003a26f9d3u64, "enforced_shell_pass"@) == 0xf7774bdf42eb04u64,
{
    reveal_strlit("enforced_shell_pass");
    let s0 = Seq::<char>::empty();
    let s1 = s0.push('e');
    let s2 = s1.push('n');
    let s3 = s2.push('f');
    let s4 = s3.push('o');
    let s5 = s4.push('r');
    let s6 = s5.push('c');
    let s7 = s6.push('e');
    let s8 = s7.push('d');
    let s9 = s8.push('_');
    let s10 = s9.push('s');
    let s11 = s10.push('h');
    let s12 = s11.push('e');
    let s13 = s12.push('l');
    let s14 = s13.push('l');
    let s15 = s14.push('_');
    let s16 = s15.push('p');
    let s17 = s16.push('a');
    let s18 = s17.push('s');
    let s19 = s18.push('s');
    assert("enforced_shell_pass"@ =~= s19);
    lemma_fnv_push(0x37d8b0003a26f9d3u64, s0, 'e');
    lemma_fnv_push(0x37d8b0003a26f9d3u64, s1, 'n');
    lemma_fnv_push(0x37d8b0003a26f9d3u64, s2, 'f');
    lemma_fnv_push(0x37d8b0003a26f9d3u64, s3, 'o');
    lemma_fnv_push(0x37d8b0003a26f9d3u64, s4, 'r');
    lemma_fnv_push(0x37d8b0003a26f9d3u64, s5, 'c');
    lemma_fnv_push(0x37d8b0003a26f9d3u64, s6, 'e');
    lemma_fnv_push(0x37d8b0003a26f9d3u64, s7, 'd');
    lemma_fnv_push(0x37d8b0003a26f9d3u64, s8, '_');
    lemma_fnv_push(0x37d8b0003a26f9d3u64, s9, 's');
    lemma_fnv_push(0x37d8b0003a26f9d3u64, s10, 'h');
    lemma_fnv_push(0x37d8b0003a26f9d3u64, s11, 'e');
    lemma_fnv_push(0x37d8b0003a26f9d3u64, s12, 'l');
    lemma_fnv_push(0x37d8b0003a26f9d3u64, s13, 'l');
    lemma_fnv_push(0x37d8b0003a26f9d3u64, s14, '_');
    lemma_fnv_push(0x37d8b0003a26f9d3u64, s15, 'p');
    lemma_fnv_push(0x37d8b0003a26f9d3u64, s16, 'a');
    lemma_fnv_push(0x37d8b0003a26f9d3u64, s17, 's');
    lemma_fnv_push(0x37d8b0003a26f9d3u64, s18, 's');
    assert(fnv_step(fnv_step(fnv_step(fnv_step(fnv_step(fnv_step(fnv_step(fnv_step(fnv_step(fnv_step(fnv_step(fnv_step(fnv_step(fnv_step(fnv_step(fnv_step(fnv_step(fnv_step(fnv_step(0x37d8b0003a26f9d3u64, 0x65u64), 0x6eu64), 0x66u64), 0x6fu64), 0x72u64), 0x63u64), 0x65u64), 0x64u64), 0x5fu64), 0x73u64), 0x68u64), 0x65u64), 0x6cu64), 0x6cu64), 0x5fu64), 0x70u64), 0x61u64), 0x73u64), 0x73u64) == 0xf7774bdf42eb04u64) by (bit_vector);
}
/// The enforcement stamps that the fallback decision reads and writes
/// live under four different keys.
pub proof fn lemma_enforce_keys_distinct()
    ensures
        spec_enforce_key("app_shell_pass"@).value == 0xdb180e249c886bc9u64,
        spec_enforce_key("shell_opt_out_pass"@).value == 0x1c8d5ce883e1b8c6u64,
        spec_enforce_key("grace_pass"@).value == 0x592c46283654713u64,
        spec_enforce_key("enforced_shell_pass"@).value == 0xf7774bdf42eb04u64,
{
    lemma_enforce_prefix();
    assert(fnv_step(0x58780ee4ede3d77eu64, 0x1fu64) == 0x37d8b0003a26f9d3u64) by (bit_vector);
    assert(PART_SEPARATOR == 0x1fu64);
    lemma_app_shell_key_hash();
    lemma_opt_out_key_hash();
    lemma_grace_key_hash();
    lemma_enforced_shell_key_hash();
}


/// The store after the app's per-pass opt-out, when it makes one.
pub open spec fn with_opt_out(temp: Map<MemoryKey, MemoryValue>, pass: u64, opt_out: bool) -> Map<
    MemoryKey,
    MemoryValue,
> {
    if opt_out {
        temp.insert((spec_enforce_key("shell_opt_out_pass"@), MemoryKind::Pass), MemoryValue::Pass(pass))
    } else {
        temp
    }
}

/// Whether the fallback bar renders in pass `pass`, given the store the
/// pass starts with and whether the app opts out before enforcement.
pub open spec fn pass_bar_due(temp: Map<MemoryKey, MemoryValue>, pass: u64, opt_out: bool) -> bool {
    spec_bar_due(with_opt_out(temp, pass, opt_out), pass)
}

/// The store after one host pass: the app's opt-out (if any), the
/// enforcement (recording the grace pass, and the fallback bar when it
/// is due), then the app's own bar (if it renders one).
pub open spec fn host_pass(temp: Map<MemoryKey, MemoryValue>, pass: u64, app_bar: bool, opt_out: bool) -> Map<
    MemoryKey,
    MemoryValue,
> {
    let t0 = with_opt_out(temp, pass, opt_out);
    let t1 = if stamped_pass(t0, spec_enforce_key("grace_pass"@)) is Some {
        t0
    } else {
        t0.insert((spec_enforce_key("grace_pass"@), MemoryKind::Pass), MemoryValue::Pass(pass))
    };
    let t2 = if spec_bar_due(t0, pass) {
        t1.insert((spec_enforce_key("enforced_shell_pass"@), MemoryKind::Pass), MemoryValue::Pass(pass))
    } else {
        t1
    };
    if app_bar {
        stamped(t2, spec_enforce_key("app_shell_pass"@), pass)
    } else {
        t2
    }
}

/// The store after passes `0..n` of a fresh context whose app renders
/// its own bar in the passes before `app_until` and opts out in the
/// passes before `opt_until`.
pub open spec fn host_run(app_until: nat, opt_until: nat, n: nat) -> Map<MemoryKey, MemoryValue>
    decreases n,
{
    if n == 0 {
        Map::empty()
    } else {
        host_pass(
            host_run(app_until, opt_until, (n - 1) as nat),
            (n - 1) as u64,
            n - 1 < app_until,
            n - 1 < opt_until,
        )
    }
}

/// The last pass before `n` in which something done in the passes
/// before `until` was stamped.
pub open spec fn last_stamp(until: nat, n: nat) -> Option<u64> {
    if n == 0 || until == 0 {
        None
    } else if n <= until {
        Some((n - 1) as u64)
    } else {
        Some((until - 1) as u64)
    }
}

proof fn lemma_host_run(app_until: nat, opt_until: nat, n: nat)
    requires
        n <= u64::MAX,
    ensures
        ({
            let t = host_run(app_until, opt_until, n);
            &&& !spec_enforcing(t)
            &&& stamped_pass(t, spec_enforce_key("grace_pass"@)) == (if n == 0 {
                None
            } else {
                Some(0u64)
            })
            &&& stamped_pass(t, spec_enforce_key("app_shell_pass"@)) == last_stamp(app_until, n)
            &&& stamped_pass(t, spec_enforce_key("shell_opt_out_pass"@)) == last_stamp(opt_until, n)
        }),
    decreases n,
{
    lemma_enforce_keys_distinct();
    assert(spec_enforce_key("active"@) == id_with(id_of("mara.enforce"@), "active"@));
    if n > 0 {
        lemma_host_run(app_until, opt_until, (n - 1) as nat);
    }
}

/// Over the passes of a fresh context, the fallback bar renders in
/// pass `n` exactly when the grace pass is over, the app rendered no
/// bar of its own in this pass or the one before, and it did not opt
/// out in this pass or the one before. So an app that never renders a
/// bar gets the fallback from the second pass on, every pass; an app
/// that opts out in the passes before `opt_until` gets it back one
/// pass after it stops; and one that renders its bar every pass never
/// gets it.
pub proof fn law_fallback_over_passes(app_until: nat, opt_until: nat, n: nat)
    requires
        n <= u64::MAX,
    ensures
        pass_bar_due(host_run(app_until, opt_until, n), n as u64, n < opt_until) == (n > 0
            && n > app_until && n > opt_until),
{
    lemma_enforce_keys_distinct();
    lemma_host_run(app_until, opt_until, n);
}

} // verus!
