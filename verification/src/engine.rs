//! The incremental analysis engine: tracks per-document text and version,
//! analyzes a document immediately on open, debounces analysis after edits,
//! records results under a "freshest version wins" conditional write, serves
//! diagnostics on demand, and keeps every document's state isolated from every
//! other's.
//!
//! The engine itself is free of clocks and timers: edits carry the caller's
//! current time, and the caller schedules one timer per armed deadline and
//! reports fires and run completions back. All decisions — whether a fire is
//! stale, whether a run starts or queues, whether a completed result is
//! recorded or superseded — are made here.

use vstd::prelude::*;

use crate::analysis::AnalysisResult;
use crate::analysis::analyze;
use crate::analysis::wgsl_parse_ok;
use crate::diagnostics::Diagnostic;
use crate::diagnostics::diagnostics_for;
use crate::diagnostics::published_diags;
use crate::schedule::completion_starts_next;
use crate::schedule::fire_starts;
use crate::schedule::sched_after_change;
use crate::schedule::sched_after_completion;
use crate::schedule::sched_after_fire;
use crate::schedule::sched_change;
use crate::schedule::sched_complete;
use crate::schedule::sched_fire;
use crate::schedule::sched_idle;
use crate::schedule::sched_new;
use crate::store::DocumentState;
use crate::store::DocumentStore;
use crate::store::empty_docs;
use crate::store::store_map;
use crate::store::text_within_limit;
use crate::store::wf_state;
use vstd::utf8::encode_utf8;

verus! {

/// The state a document has right after opening: the supplied text and
/// version, the result of the immediate analysis recorded at that version, and
/// a quiet scheduling state.
pub open spec fn opened_state(text: String, version: u64, result: AnalysisResult) -> DocumentState {
    DocumentState {
        version,
        text,
        analyzed_version: version,
        last_result: Some(result),
        sched: sched_idle(),
    }
}

/// Whether an edit carrying `new_version` applies to `st`: versions grow
/// monotonically, so an edit not newer than the stored version is out of order
/// and is ignored.
pub open spec fn change_applies(st: DocumentState, new_version: u64) -> bool {
    new_version > st.version
}

/// The state after an applied edit: new text and version, the previous result
/// kept (now stale), and the debounce timer (re)armed.
pub open spec fn changed_state(
    st: DocumentState,
    new_text: String,
    new_version: u64,
    now: u64,
    d: u64,
) -> DocumentState {
    DocumentState {
        version: new_version,
        text: new_text,
        analyzed_version: st.analyzed_version,
        last_result: st.last_result,
        sched: sched_after_change(st.sched, now, d),
    }
}

/// Whether a completed result computed from text version `version` is
/// recorded: only if it is at least as fresh as the recorded one and no newer
/// than the stored text. Older, superseded results are discarded, which makes
/// out-of-order completion of analysis runs safe.
pub open spec fn record_applies(st: DocumentState, version: u64) -> bool {
    st.analyzed_version <= version <= st.version
}

/// The state after recording a result computed from text version `version`.
pub open spec fn recorded_state(st: DocumentState, version: u64, result: AnalysisResult) -> DocumentState {
    DocumentState {
        version: st.version,
        text: st.text,
        analyzed_version: version,
        last_result: Some(result),
        sched: st.sched,
    }
}

/// The conditional write of the document store: record the result if it
/// applies, discard it otherwise.
pub open spec fn record_step(st: DocumentState, version: u64, result: AnalysisResult) -> DocumentState {
    if record_applies(st, version) {
        recorded_state(st, version, result)
    } else {
        st
    }
}

/// The state after a timer fire presenting `timer_gen`.
pub open spec fn fired_state(st: DocumentState, timer_gen: u64) -> DocumentState {
    DocumentState { sched: sched_after_fire(st.sched, timer_gen), ..st }
}

/// The state after the run in flight completes.
pub open spec fn completed_state(st: DocumentState) -> DocumentState {
    DocumentState { sched: sched_after_completion(st.sched), ..st }
}

/// Engine-level well-formedness of one document: the store invariants hold and
/// the document carries a result, since open analyzes immediately.
pub open spec fn engine_state_wf(st: DocumentState) -> bool {
    wf_state(st) && st.last_result is Some
}

/// Whether a diagnostics pull is served from the recorded result: either the
/// result is current for the stored text, or a run is in flight that will
/// supersede whatever the pull could compute.
pub open spec fn pull_serves_cached(st: DocumentState) -> bool {
    st.analyzed_version == st.version || st.sched.running
}

/// The outcome of an applied edit: the armed timer's generation and absolute
/// deadline, for the caller to schedule. An edit for an unknown document or
/// with a non-increasing version is a protocol violation by the client and is
/// ignored.
#[derive(Clone, Copy, Debug, PartialEq, Eq, Structural)]
pub enum ChangeOutcome {
    Applied { timer_gen: u64, deadline: u64 },
    UnknownDocument,
    StaleVersion,
}

/// The outcome of a completed analysis run: diagnostics to push when the
/// result was recorded, and the captured text and version of the queued
/// follow-up run when one starts now.
pub struct CompletionOutcome {
    pub push: Option<Vec<Diagnostic>>,
    pub next: Option<(String, u64)>,
}

/// Supersession monotonicity: under the store's conditional write,
/// `analyzed_version` never regresses once a higher version's result has been
/// recorded, never passes the stored text's version, and the text's own
/// version is untouched by recording.
pub proof fn lemma_supersession_monotonic(st: DocumentState, version: u64, result: AnalysisResult)
    requires
        st.analyzed_version <= st.version,
    ensures
        record_step(st, version, result).analyzed_version >= st.analyzed_version,
        record_step(st, version, result).analyzed_version <= record_step(
            st,
            version,
            result,
        ).version,
        record_step(st, version, result).version == st.version,
{
}

/// Key isolation: writing or removing one document's entry — the only shapes
/// of update the engine ever performs — leaves every other document's presence
/// and state untouched.
pub proof fn lemma_key_isolation(
    docs: Map<Seq<char>, DocumentState>,
    id: Seq<char>,
    other: Seq<char>,
    st: DocumentState,
)
    requires
        other != id,
    ensures
        docs.insert(id, st).dom().contains(other) <==> docs.dom().contains(other),
        docs.remove(id).dom().contains(other) <==> docs.dom().contains(other),
        docs.dom().contains(other) ==> docs.insert(id, st)[other] == docs[other],
        docs.dom().contains(other) ==> docs.remove(id)[other] == docs[other],
{
}

/// A clean reopen: whatever histories two stores carry, closing a document and
/// reopening it under the same identifier leaves it in one and the same state,
/// determined by the newly supplied text, version and analysis result alone —
/// no diagnostic or version of the earlier session survives.
pub proof fn lemma_reopen_clean(
    docs_a: Map<Seq<char>, DocumentState>,
    docs_b: Map<Seq<char>, DocumentState>,
    id: Seq<char>,
    text: String,
    version: u64,
    result: AnalysisResult,
)
    ensures
        docs_a.remove(id).insert(id, opened_state(text, version, result))[id] == opened_state(
            text,
            version,
            result,
        ),
        docs_a.remove(id).insert(id, opened_state(text, version, result))[id] == docs_b.remove(
            id,
        ).insert(id, opened_state(text, version, result))[id],
{
}

/// The incremental document analysis engine.
pub struct Engine {
    store: DocumentStore,
    debounce_ms: u64,
}

impl Engine {
    /// The engine's documents as an abstract map from identifier to state.
    pub closed spec fn docs(self) -> Map<Seq<char>, DocumentState> {
        store_map(self.store)
    }

    /// The debounce window, in milliseconds of the caller's clock.
    pub closed spec fn debounce(self) -> u64 {
        self.debounce_ms
    }

    /// Every open document's state is well formed and carries a result.
    pub open spec fn wf(self) -> bool {
        forall|k: Seq<char>|
            self.docs().dom().contains(k) ==> engine_state_wf(#[trigger] self.docs()[k])
    }

    /// Builds an engine with no open documents and the given debounce window.
    pub fn new(debounce_ms: u64) -> (r: Engine)
        ensures
            r.docs() == empty_docs(),
            r.debounce() == debounce_ms,
            r.wf(),
    {
        Engine { store: DocumentStore::new(), debounce_ms }
    }

    /// Reads a snapshot of one document's state.
    pub fn read(&self, id: &String) -> (r: Option<DocumentState>)
        ensures
            r == (if self.docs().dom().contains(id@) {
                Some(self.docs()[id@])
            } else {
                None::<DocumentState>
            }),
    {
        self.store.read(id)
    }

    /// Opens a document: creates its entry — replacing any previous session
    /// under the same identifier — analyzes the initial text immediately, with
    /// no debounce, records the result at the supplied version, and returns
    /// the diagnostics to publish.
    pub fn open(&mut self, id: &String, text: String, version: u64) -> (diags: Vec<Diagnostic>)
        requires
            old(self).wf(),
            text_within_limit(text@),
        ensures
            final(self).wf(),
            final(self).debounce() == old(self).debounce(),
            final(self).docs().dom().contains(id@),
            final(self).docs() == old(self).docs().insert(id@, final(self).docs()[id@]),
            ({
                let st = final(self).docs()[id@];
                &&& st == opened_state(text, version, st.last_result->Some_0)
                &&& (st.last_result->Some_0 is ParseFailed <==> !wgsl_parse_ok(text@))
                &&& diags@ == published_diags(st.last_result->Some_0, encode_utf8(text@))
            }),
    {
        let result = analyze(text.as_str());
        let diags = diagnostics_for(&result, text.as_str().as_bytes());
        let st = DocumentState {
            version,
            text,
            analyzed_version: version,
            last_result: Some(result),
            sched: sched_new(),
        };
        self.store.write(id, st);
        proof {
            assert forall|k: Seq<char>| self.docs().dom().contains(k) implies engine_state_wf(
                #[trigger] self.docs()[k],
            ) by {
                if k != id@ {
                    assert(old(self).docs().dom().contains(k));
                    assert(self.docs()[k] == old(self).docs()[k]);
                }
            }
        }
        diags
    }

    /// Applies an edit: for a known document and a newer version, replaces the
    /// whole text, bumps the version, and (re)arms the per-document debounce
    /// timer with a fresh generation, superseding any timer already armed.
    /// The caller schedules one timer for the returned deadline and reports
    /// its fire together with the returned generation.
    pub fn apply_change(
        &mut self,
        id: &String,
        new_text: String,
        new_version: u64,
        now: u64,
    ) -> (r: ChangeOutcome)
        requires
            old(self).wf(),
            text_within_limit(new_text@),
        ensures
            final(self).wf(),
            final(self).debounce() == old(self).debounce(),
            !old(self).docs().dom().contains(id@) ==> r == ChangeOutcome::UnknownDocument
                && final(self).docs() == old(self).docs(),
            old(self).docs().dom().contains(id@) && !change_applies(
                old(self).docs()[id@],
                new_version,
            ) ==> r == ChangeOutcome::StaleVersion && final(self).docs() == old(self).docs(),
            old(self).docs().dom().contains(id@) && change_applies(
                old(self).docs()[id@],
                new_version,
            ) ==> ({
                let st1 = changed_state(
                    old(self).docs()[id@],
                    new_text,
                    new_version,
                    now,
                    old(self).debounce(),
                );
                &&& final(self).docs() == old(self).docs().insert(id@, st1)
                &&& r == (ChangeOutcome::Applied {
                    timer_gen: st1.sched.timer_gen,
                    deadline: st1.sched.deadline,
                })
            }),
    {
        match self.store.read(id) {
            None => ChangeOutcome::UnknownDocument,
            Some(st) => {
                if new_version <= st.version {
                    ChangeOutcome::StaleVersion
                } else {
                    let new_sched = sched_change(&st.sched, now, self.debounce_ms);
                    let st1 = DocumentState {
                        version: new_version,
                        text: new_text,
                        analyzed_version: st.analyzed_version,
                        last_result: st.last_result,
                        sched: new_sched,
                    };
                    self.store.write(id, st1);
                    ChangeOutcome::Applied {
                        timer_gen: new_sched.timer_gen,
                        deadline: new_sched.deadline,
                    }
                }
            },
        }
    }

    /// Handles a debounce timer fire. A fire whose generation was superseded
    /// by a later edit, or for a document no longer open, is stale and does
    /// nothing. A current fire captures the document's text and version as
    /// they are now — not as they were when the timer was armed — and returns
    /// them for the caller to analyze; if a run is already in flight, the
    /// fired run is queued instead and `None` is returned, keeping at most one
    /// run in flight per document.
    pub fn on_timer_fired(&mut self, id: &String, timer_gen: u64) -> (r: Option<(String, u64)>)
        requires
            old(self).wf(),
        ensures
            final(self).wf(),
            final(self).debounce() == old(self).debounce(),
            !old(self).docs().dom().contains(id@) ==> r is None && final(self).docs() == old(self).docs(),
            old(self).docs().dom().contains(id@) ==> ({
                let st = old(self).docs()[id@];
                &&& final(self).docs() == old(self).docs().insert(id@, fired_state(st, timer_gen))
                &&& (fire_starts(st.sched, timer_gen) ==> r == Some((st.text, st.version)))
                &&& (!fire_starts(st.sched, timer_gen) ==> r is None)
            }),
    {
        match self.store.read(id) {
            None => None,
            Some(st) => {
                let (new_sched, starts) = sched_fire(&st.sched, timer_gen);
                let captured = if starts {
                    Some((st.text.clone(), st.version))
                } else {
                    None
                };
                self.store.write(id, DocumentState { sched: new_sched, ..st });
                captured
            },
        }
    }

    /// Handles the completion of an analysis run whose input was the
    /// document's text at `version`. The result is recorded only if it is at
    /// least as fresh as the recorded one — a superseded result is discarded,
    /// and a result for a document closed while the run was in flight is
    /// discarded entirely. When recorded, the diagnostics to push are returned,
    /// translated against the document's current text. If a fired run was
    /// queued behind this one, it starts now with the freshest text, returned
    /// as the next capture.
    pub fn complete_analysis(&mut self, id: &String, version: u64, result: AnalysisResult) -> (r:
        CompletionOutcome)
        requires
            old(self).wf(),
        ensures
            final(self).wf(),
            final(self).debounce() == old(self).debounce(),
            !old(self).docs().dom().contains(id@) ==> r.push is None && r.next is None
                && final(self).docs() == old(self).docs(),
            old(self).docs().dom().contains(id@) ==> ({
                let st = old(self).docs()[id@];
                &&& final(self).docs() == old(self).docs().insert(
                    id@,
                    completed_state(record_step(st, version, result)),
                )
                &&& (record_applies(st, version) ==> (r.push matches Some(d) && d@
                    == published_diags(result, encode_utf8(st.text@))))
                &&& (!record_applies(st, version) ==> r.push is None)
                &&& (completion_starts_next(st.sched) ==> r.next == Some((st.text, st.version)))
                &&& (!completion_starts_next(st.sched) ==> r.next is None)
            }),
    {
        match self.store.read(id) {
            None => CompletionOutcome { push: None, next: None },
            Some(st) => {
                proof {
                    assert(engine_state_wf(old(self).docs()[id@]));
                }
                let applies = st.analyzed_version <= version && version <= st.version;
                let (new_sched, starts) = sched_complete(&st.sched);
                let next = if starts {
                    Some((st.text.clone(), st.version))
                } else {
                    None
                };
                let push = if applies {
                    let d = diagnostics_for(&result, st.text.as_str().as_bytes());
                    self.store.write(
                        id,
                        DocumentState {
                            version: st.version,
                            text: st.text,
                            analyzed_version: version,
                            last_result: Some(result),
                            sched: new_sched,
                        },
                    );
                    Some(d)
                } else {
                    self.store.write(id, DocumentState { sched: new_sched, ..st });
                    None
                };
                proof {
                    assert forall|k: Seq<char>| self.docs().dom().contains(k) implies
                        engine_state_wf(#[trigger] self.docs()[k]) by {
                        if k != id@ {
                            assert(old(self).docs().dom().contains(k));
                            assert(self.docs()[k] == old(self).docs()[k]);
                        }
                    }
                }
                CompletionOutcome { push, next }
            },
        }
    }

    /// Serves a diagnostics pull. For an unknown document there is nothing to
    /// serve. When the recorded result is current for the stored text — or a
    /// run is in flight that will supersede anything computed here — the
    /// recorded result is published as is. Otherwise the current text is
    /// analyzed on the spot, the result recorded at the current version, and
    /// its diagnostics returned. The call always computes synchronously and
    /// never waits on a timer or a run.
    pub fn pull_diagnostics(&mut self, id: &String) -> (r: Option<Vec<Diagnostic>>)
        requires
            old(self).wf(),
        ensures
            final(self).wf(),
            final(self).debounce() == old(self).debounce(),
            r is Some <==> old(self).docs().dom().contains(id@),
            !old(self).docs().dom().contains(id@) ==> final(self).docs() == old(self).docs(),
            old(self).docs().dom().contains(id@) && pull_serves_cached(old(self).docs()[id@])
                ==> ({
                let st = old(self).docs()[id@];
                &&& final(self).docs() == old(self).docs()
                &&& (r matches Some(d) && d@ == published_diags(
                    st.last_result->Some_0,
                    encode_utf8(st.text@),
                ))
            }),
            old(self).docs().dom().contains(id@) && !pull_serves_cached(old(self).docs()[id@])
                ==> ({
                let st = old(self).docs()[id@];
                let res = final(self).docs()[id@].last_result->Some_0;
                &&& final(self).docs() == old(self).docs().insert(
                    id@,
                    recorded_state(st, st.version, res),
                )
                &&& (res is ParseFailed <==> !wgsl_parse_ok(st.text@))
                &&& (r matches Some(d) && d@ == published_diags(res, encode_utf8(st.text@)))
            }),
    {
        match self.store.read(id) {
            None => None,
            Some(st) => {
                proof {
                    assert(engine_state_wf(old(self).docs()[id@]));
                }
                if st.analyzed_version == st.version || st.sched.running {
                    match &st.last_result {
                        Some(result) => Some(diagnostics_for(result, st.text.as_str().as_bytes())),
                        None => {
                            // Unreachable: every open document carries a result.
                            proof {
                                assert(false);
                            }
                            None
                        },
                    }
                } else {
                    let result = analyze(st.text.as_str());
                    let d = diagnostics_for(&result, st.text.as_str().as_bytes());
                    let st1 = DocumentState {
                        version: st.version,
                        text: st.text,
                        analyzed_version: st.version,
                        last_result: Some(result),
                        sched: st.sched,
                    };
                    self.store.write(id, st1);
                    proof {
                        assert forall|k: Seq<char>| self.docs().dom().contains(k) implies
                            engine_state_wf(#[trigger] self.docs()[k]) by {
                            if k != id@ {
                                assert(old(self).docs().dom().contains(k));
                                assert(self.docs()[k] == old(self).docs()[k]);
                            }
                        }
                    }
                    Some(d)
                }
            },
        }
    }

    /// Closes a document: removes its entry entirely. A timer already armed
    /// for it becomes stale, and a run still in flight finds no entry to write
    /// into when it completes, so its result is discarded — cooperative
    /// cancellation.
    pub fn close(&mut self, id: &String)
        requires
            old(self).wf(),
        ensures
            final(self).wf(),
            final(self).debounce() == old(self).debounce(),
            final(self).docs() == old(self).docs().remove(id@),
    {
        self.store.remove(id);
        proof {
            assert forall|k: Seq<char>| self.docs().dom().contains(k) implies engine_state_wf(
                #[trigger] self.docs()[k],
            ) by {
                assert(old(self).docs().dom().contains(k));
                assert(self.docs()[k] == old(self).docs()[k]);
            }
        }
    }
}

} // verus!
