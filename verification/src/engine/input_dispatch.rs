//! Turning `input.*` payloads into backend calls. A request becomes a plan of steps: combos and
//! text go to the backend, pauses are waited out by the caller between steps, so a delay never
//! blocks a worker thread and the backend stays free of timing.
use vstd::prelude::*;
use vstd::utf8::encode_utf8;

use crate::engine::error::{is_wire_error, EngineError};
use crate::input::{Injection, InputBackend, InputError};
use crate::protocol::envelope::ErrorCode;
use crate::protocol::input::{
    combo_problem, sequence_problem, Key, KeyCombo, KeySequence, MediaRequest, SequenceStep,
    TextRequest,
};
use crate::text::{decimal, decimal_spec, decimal_wide, push_char};

verus! {

/// The longest a single `input.text` may be, in bytes. Each character becomes several
/// injected events, so an unbounded string is both a memory amplifier and a way to hold the
/// injection thread indefinitely.
pub const MAX_TEXT_LEN: usize = 4096;

/// The longest a whole `input.key_sequence` may take, in milliseconds. Sequences run detached
/// from the socket that asked, so without a ceiling a client could queue minutes of delays.
pub const MAX_SEQUENCE_MS: u64 = 30000;

/// One step of an injection plan.
#[derive(Debug)]
pub enum InputStep {
    /// Press the keys in order, hold, release in reverse.
    Combo { keys: Vec<Key>, hold_ms: u32 },
    /// Type a literal string.
    Text(String),
    /// Wait, then go on.
    Pause { ms: u32 },
}

/// A step as plain values.
pub enum StepView {
    Combo { keys: Seq<Key>, hold_ms: u32 },
    Text(Seq<char>),
    Pause { ms: u32 },
}

pub open spec fn step_view(s: InputStep) -> StepView {
    match s {
        InputStep::Combo { keys, hold_ms } => StepView::Combo { keys: keys@, hold_ms },
        InputStep::Text(t) => StepView::Text(t@),
        InputStep::Pause { ms } => StepView::Pause { ms },
    }
}

pub open spec fn steps_view(s: Seq<InputStep>) -> Seq<StepView> {
    s.map_values(|x: InputStep| step_view(x))
}

/// The combo a `KeyCombo` asks for: its keys, held for `hold_ms` or zero.
pub open spec fn combo_step(c: KeyCombo) -> StepView {
    StepView::Combo {
        keys: c.keys@,
        hold_ms: match c.hold_ms {
            Some(h) => h,
            None => 0,
        },
    }
}

/// `r` is the plan or the `BAD_REQUEST` a problem calls for.
pub open spec fn answers_plan(
    r: Result<Vec<InputStep>, EngineError>,
    problem: Option<Seq<char>>,
    plan: Seq<StepView>,
) -> bool {
    match problem {
        Some(m) => r matches Err(e) && is_wire_error(e, ErrorCode::BadRequest, m),
        None => r matches Ok(v) && steps_view(v@) == plan,
    }
}

fn copy_keys(keys: &Vec<Key>) -> (r: Vec<Key>)
    ensures
        r@ == keys@,
{
    let mut out: Vec<Key> = Vec::new();
    let mut i: usize = 0;
    while i < keys.len()
        invariant
            i <= keys@.len(),
            out@ == keys@.take(i as int),
        decreases keys@.len() - i,
    {
        out.push(keys[i]);
        assert(out@ =~= keys@.take(i + 1));
        i = i + 1;
    }
    assert(keys@.take(keys@.len() as int) =~= keys@);
    out
}

/// `input.key_combo`: at least one key, at most one non-modifier.
pub fn plan_key_combo(request: &KeyCombo) -> (r: Result<Vec<InputStep>, EngineError>)
    ensures
        answers_plan(r, combo_problem(request.keys@), seq![combo_step(*request)]),
{
    match request.validate() {
        Ok(()) => {},
        Err(payload) => {
            return Err(EngineError::Wire(payload));
        },
    }
    let mut plan: Vec<InputStep> = Vec::new();
    plan.push(InputStep::Combo { keys: copy_keys(&request.keys), hold_ms: request.hold_ms_or_default() });
    assert(steps_view(plan@) =~= seq![combo_step(*request)]);
    Ok(plan)
}

/// How long a sequence takes: its delays and the holds of its combos.
pub open spec fn sequence_total(steps: Seq<SequenceStep>) -> nat
    decreases steps.len(),
{
    if steps.len() == 0 {
        0
    } else {
        sequence_total(steps.drop_last()) + match steps.last() {
            SequenceStep::Delay { delay_ms } => delay_ms as nat,
            SequenceStep::Combo(c) => match c.hold_ms {
                Some(h) => h as nat,
                None => 0nat,
            },
        }
    }
}

pub open spec fn too_long_message(total: nat) -> Seq<char> {
    "the sequence would take "@ + decimal_spec(total) + " ms; the limit is 30000 ms"@
}

/// What is wrong with a sequence: a bad combo step, else taking longer than the limit.
pub open spec fn sequence_plan_problem(steps: Seq<SequenceStep>) -> Option<Seq<char>> {
    if sequence_problem(steps) is Some {
        sequence_problem(steps)
    } else if sequence_total(steps) > MAX_SEQUENCE_MS {
        Some(too_long_message(sequence_total(steps)))
    } else {
        None
    }
}

/// The plan of a sequence: each combo as a combo step, each delay as a pause.
pub open spec fn sequence_plan(steps: Seq<SequenceStep>) -> Seq<StepView> {
    steps.map_values(
        |s: SequenceStep|
            match s {
                SequenceStep::Combo(c) => combo_step(c),
                SequenceStep::Delay { delay_ms } => StepView::Pause { ms: delay_ms },
            },
    )
}

/// `input.key_sequence`: every combo valid, the whole no longer than the limit; the combos run
/// in order with the pauses between them.
pub fn plan_key_sequence(request: &KeySequence) -> (r: Result<Vec<InputStep>, EngineError>)
    ensures
        answers_plan(r, sequence_plan_problem(request.steps@), sequence_plan(request.steps@)),
{
    match request.validate() {
        Ok(()) => {},
        Err(payload) => {
            return Err(EngineError::Wire(payload));
        },
    }
    // Wide enough that no number of steps a `Vec` can hold overflows it.
    let mut total: u128 = 0;
    let mut plan: Vec<InputStep> = Vec::new();
    let mut i: usize = 0;
    while i < request.steps.len()
        invariant
            i <= request.steps@.len(),
            total == sequence_total(request.steps@.take(i as int)),
            total <= i * 0xFFFF_FFFF,
            plan@.len() == i,
            steps_view(plan@) == sequence_plan(request.steps@.take(i as int)),
        decreases request.steps@.len() - i,
    {
        let ghost before = plan@;
        assert(request.steps@.take(i + 1).drop_last() =~= request.steps@.take(i as int));
        match &request.steps[i] {
            SequenceStep::Delay { delay_ms } => {
                total = total + *delay_ms as u128;
                plan.push(InputStep::Pause { ms: *delay_ms });
            },
            SequenceStep::Combo(c) => {
                total = total + c.hold_ms_or_default() as u128;
                plan.push(InputStep::Combo { keys: copy_keys(&c.keys), hold_ms: c.hold_ms_or_default() });
            },
        }
        proof {
            let s = request.steps@[i as int];
            assert(step_view(plan@[i as int]) == match s {
                SequenceStep::Combo(c) => combo_step(c),
                SequenceStep::Delay { delay_ms } => StepView::Pause { ms: delay_ms },
            });
            assert(steps_view(plan@) =~= steps_view(before).push(step_view(plan@[i as int])));
            assert(request.steps@.take(i + 1) =~= request.steps@.take(i as int).push(s));
            assert(total <= (i + 1) * 0xFFFF_FFFF) by (nonlinear_arith)
                requires
                    total <= i * 0xFFFF_FFFF + 0xFFFF_FFFF,
            ;
            assert(steps_view(plan@) =~= sequence_plan(request.steps@.take(i + 1)));
        }
        i = i + 1;
    }
    assert(request.steps@.take(request.steps@.len() as int) =~= request.steps@);
    if total > MAX_SEQUENCE_MS as u128 {
        let mut m = String::from_str("the sequence would take ");
        m.append(decimal_wide(total).as_str());
        m.append(" ms; the limit is 30000 ms");
        return Err(EngineError::wire(ErrorCode::BadRequest, m));
    }
    Ok(plan)
}

pub open spec fn text_too_long_message(len: nat) -> Seq<char> {
    "text is "@ + decimal_spec(len) + " bytes; the limit is 4096"@
}

/// The plan of a text: the whole string at once when there is no delay; otherwise each
/// character on its own, each followed by the pause.
pub open spec fn text_plan(text: Seq<char>, delay: u32) -> Seq<StepView> {
    if delay == 0 {
        seq![StepView::Text(text)]
    } else {
        Seq::new(
            2 * text.len(),
            |i: int|
                if i % 2 == 0 {
                    StepView::Text(seq![text[i / 2]])
                } else {
                    StepView::Pause { ms: delay }
                },
        )
    }
}

/// `input.text`: at most 4096 bytes of UTF-8.
pub fn plan_text(request: &TextRequest) -> (r: Result<Vec<InputStep>, EngineError>)
    ensures
        answers_plan(
            r,
            if encode_utf8(request.text@).len() > MAX_TEXT_LEN {
                Some(text_too_long_message(encode_utf8(request.text@).len()))
            } else {
                None
            },
            text_plan(request.text@, match request.delay_ms {
                Some(d) => d,
                None => 0,
            }),
        ),
{
    let bytes = request.text.as_str().as_bytes().len();
    if bytes > MAX_TEXT_LEN {
        let mut m = String::from_str("text is ");
        m.append(decimal(bytes as u64).as_str());
        m.append(" bytes; the limit is 4096");
        return Err(EngineError::wire(ErrorCode::BadRequest, m));
    }
    let delay = request.delay_ms_or_default();
    let mut plan: Vec<InputStep> = Vec::new();
    if delay == 0 {
        plan.push(InputStep::Text(request.text.clone()));
        assert(steps_view(plan@) =~= text_plan(request.text@, delay));
        return Ok(plan);
    }
    let text = request.text.as_str();
    let n = text.unicode_len();
    let mut i: usize = 0;
    while i < n
        invariant
            n == text@.len(),
            text@ == request.text@,
            delay > 0,
            i <= n,
            plan@.len() == 2 * i,
            steps_view(plan@) =~= text_plan(text@, delay).take(2 * i),
        decreases n - i,
    {
        let ghost before = plan@;
        let c = text.get_char(i);
        let mut single = String::new();
        push_char(&mut single, c);
        plan.push(InputStep::Text(single));
        plan.push(InputStep::Pause { ms: delay });
        proof {
            assert(single@ =~= seq![text@[i as int]]);
            let full = text_plan(text@, delay);
            assert(full.len() == 2 * n);
            assert((2 * i) / 2 == i && (2 * i) % 2 == 0);
            assert((2 * i + 1) % 2 == 1);
            assert(full[2 * i] == StepView::Text(seq![text@[i as int]]));
            assert(full[2 * i + 1] == StepView::Pause { ms: delay });
            assert(step_view(plan@[2 * i]) == full[2 * i]);
            assert(step_view(plan@[2 * i + 1]) == full[2 * i + 1]);
            assert(steps_view(plan@) =~= steps_view(before).push(full[2 * i]).push(full[2 * i + 1]));
            assert(steps_view(plan@) =~= text_plan(text@, delay).take(2 * i + 2));
        }
        i = i + 1;
    }
    assert(text_plan(text@, delay).take(2 * n) =~= text_plan(text@, delay));
    Ok(plan)
}

/// Every failure of the backend becomes `INJECTION_FAILED` with its message intact: those
/// messages are remediation instructions, and the client shows them.
pub open spec fn is_injection_failure(e: EngineError, cause: InputError) -> bool {
    is_wire_error(e, ErrorCode::InjectionFailed, cause.message_spec())
}

pub fn injection_failed(cause: InputError) -> (e: EngineError)
    ensures
        is_injection_failure(e, cause),
{
    EngineError::wire(ErrorCode::InjectionFailed, cause.message())
}

/// `e` is an `INJECTION_FAILED` carrying some backend message.
pub open spec fn injection_failed_spec(e: EngineError) -> bool {
    e matches EngineError::Wire(p) && p.code == ErrorCode::InjectionFailed
}

/// What handing a step to the backend asks of it: a combo or a text exactly as planned, and
/// nothing for a pause.
pub open spec fn injections_of(step: StepView) -> Seq<Injection> {
    match step {
        StepView::Combo { keys, hold_ms } => seq![Injection::Combo(keys, hold_ms)],
        StepView::Text(t) => seq![Injection::Text(t)],
        StepView::Pause { .. } => Seq::empty(),
    }
}

/// What walking a plan step by step asks of the backend, in order.
pub open spec fn planned_injections(plan: Seq<StepView>) -> Seq<Injection>
    decreases plan.len(),
{
    if plan.len() == 0 {
        Seq::empty()
    } else {
        planned_injections(plan.drop_last()) + injections_of(plan.last())
    }
}

/// The combos of a sequence, in order, each with its keys and its hold (zero when none is
/// given).
pub open spec fn sequence_combos(steps: Seq<SequenceStep>) -> Seq<Injection>
    decreases steps.len(),
{
    if steps.len() == 0 {
        Seq::empty()
    } else {
        sequence_combos(steps.drop_last()) + match steps.last() {
            SequenceStep::Combo(c) => seq![
                Injection::Combo(
                    c.keys@,
                    match c.hold_ms {
                        Some(h) => h,
                        None => 0,
                    },
                ),
            ],
            SequenceStep::Delay { .. } => Seq::empty(),
        }
    }
}

/// Walking the plan of a sequence, performing each step in turn, hands the backend every
/// combo of the sequence with its own keys and hold, in the sequence's order, and nothing for
/// the delays.
pub proof fn law_sequence_reaches_backend_in_order(steps: Seq<SequenceStep>)
    ensures
        planned_injections(sequence_plan(steps)) == sequence_combos(steps),
    decreases steps.len(),
{
    if steps.len() > 0 {
        law_sequence_reaches_backend_in_order(steps.drop_last());
        assert(sequence_plan(steps).drop_last() =~= sequence_plan(steps.drop_last()));
    }
}

/// Hands one combo or text step to the backend, with the step's own keys, hold or text. A
/// pause is the caller's to wait out; handed here it does nothing.
pub fn perform<B: InputBackend>(backend: &mut B, step: &InputStep) -> (r: Result<(), EngineError>)
    ensures
        B::keeps_log() ==> final(backend).asked() == old(backend).asked() + injections_of(
            step_view(*step),
        ),
        r matches Err(e) ==> injection_failed_spec(e),
        step is Pause ==> r is Ok,
{
    let outcome = match step {
        InputStep::Combo { keys, hold_ms } => backend.key_combo(keys.as_slice(), *hold_ms),
        InputStep::Text(t) => backend.text(t.as_str()),
        InputStep::Pause { .. } => Ok(()),
    };
    match outcome {
        Ok(()) => Ok(()),
        Err(cause) => Err(injection_failed(cause)),
    }
}

/// `input.key_combo` against a backend: a bad combo is refused before the backend is touched.
pub fn key_combo<B: InputBackend>(backend: &mut B, request: &KeyCombo) -> (r: Result<(), EngineError>)
    ensures
        match combo_problem(request.keys@) {
            Some(m) => r matches Err(e) && is_wire_error(e, ErrorCode::BadRequest, m) && *final(backend)
                == *old(backend),
            None => (r matches Err(e) ==> injection_failed_spec(e)) && (B::keeps_log() ==> final(backend).asked()
                == old(backend).asked().push(
                Injection::Combo(
                    request.keys@,
                    match request.hold_ms {
                        Some(h) => h,
                        None => 0,
                    },
                ),
            )),
        },
{
    let plan = match plan_key_combo(request) {
        Ok(p) => p,
        Err(e) => {
            return Err(e);
        },
    };
    assert(steps_view(plan@).len() == 1);
    assert(step_view(plan@[0]) == steps_view(plan@)[0]);
    let ghost before = backend.asked();
    let r = perform(backend, &plan[0]);
    assert(injections_of(combo_step(*request)) =~= seq![
        Injection::Combo(
            request.keys@,
            match request.hold_ms {
                Some(h) => h,
                None => 0,
            },
        ),
    ]);
    assert(before + injections_of(combo_step(*request)) =~= before.push(
        injections_of(combo_step(*request))[0],
    ));
    r
}

/// `input.media` against a backend: the command goes to the backend as it was asked for.
pub fn media<B: InputBackend>(backend: &mut B, request: &MediaRequest) -> (r: Result<(), EngineError>)
    ensures
        B::keeps_log() ==> final(backend).asked() == old(backend).asked().push(
            Injection::Media(request.command),
        ),
        r matches Err(e) ==> injection_failed_spec(e),
{
    match backend.media(request.command) {
        Ok(()) => Ok(()),
        Err(cause) => Err(injection_failed(cause)),
    }
}

} // verus!
