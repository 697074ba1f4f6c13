use vstd::prelude::*;
use vstd::string::StringExecFns;
use crate::config;
use crate::context::Message;
use crate::context::placeholder;

verus! {

/// What one transport call produced: the raw response body, or a
/// transport-level failure (network unreachable, non-text body, and
/// non-success statuses all fold into the same failure).
pub enum Outcome {
    Response(String),
    Failure,
}

/// The spec-level image of an `Outcome`.
pub enum OutcomeView {
    Response(Seq<char>),
    Failure,
}

impl View for Outcome {
    type V = OutcomeView;

    open spec fn view(&self) -> OutcomeView {
        match self {
            Outcome::Response(r) => OutcomeView::Response(r@),
            Outcome::Failure => OutcomeView::Failure,
        }
    }
}

/// One outbound POST: the fixed endpoint address and the raw query text,
/// forwarded verbatim as the request body.
pub struct Request {
    pub url: String,
    pub body: String,
}

/// The spec-level image of a whole client session: the unsubmitted draft,
/// the text the holder displays, whether a transport failure has halted
/// the client, and the bodies of every request issued so far, oldest first.
#[verifier::ext_equal]
pub struct ViewState {
    pub draft: Seq<char>,
    pub shown: Seq<char>,
    pub halted: bool,
    pub requests: Seq<Seq<char>>,
}

/// The state a freshly mounted view is in: empty draft, placeholder shown,
/// live, and no request issued yet.
pub open spec fn initial_state() -> ViewState {
    ViewState {
        draft: Seq::empty(),
        shown: placeholder(),
        halted: false,
        requests: Seq::empty(),
    }
}

/// A change event on the text field: the draft is replaced wholesale with
/// the field's current contents. A halted client processes no events.
pub open spec fn edited(s: ViewState, text: Seq<char>) -> ViewState {
    if s.halted {
        s
    } else {
        ViewState { draft: text, ..s }
    }
}

/// A click on the submit control: exactly one request, whose body is the
/// current draft, joins the issued log; nothing else changes. A halted
/// client processes no events.
pub open spec fn submitted(s: ViewState) -> ViewState {
    if s.halted {
        s
    } else {
        ViewState { requests: s.requests.push(s.draft), ..s }
    }
}

/// Completion of an in-flight transport call: a response replaces the shown
/// text exactly; a failure halts the client and leaves the shown text as it
/// was (no error message becomes visible). A halted client processes no
/// events.
pub open spec fn arrived(s: ViewState, o: OutcomeView) -> ViewState {
    if s.halted {
        s
    } else {
        match o {
            OutcomeView::Response(r) => ViewState { shown: r, ..s },
            OutcomeView::Failure => ViewState { halted: true, ..s },
        }
    }
}

/// The query view bound to the shared response holder: an editable draft,
/// a submit control that issues one POST of the draft, and a read-only
/// display of the holder's text.
pub struct Dataview {
    /// The unsubmitted query text, replaced wholesale on every change event.
    pub query: String,
    /// The shared response holder this view reads and the completions write.
    pub holder: Message,
    /// Set once a transport failure has halted the client; from then on the
    /// view is totally unresponsive.
    pub halted: bool,
    /// The bodies of every request issued so far, oldest first.
    pub requests: Ghost<Seq<Seq<char>>>,
}

impl View for Dataview {
    type V = ViewState;

    open spec fn view(&self) -> ViewState {
        ViewState {
            draft: self.query@,
            shown: self.holder@,
            halted: self.halted,
            requests: self.requests@,
        }
    }
}

impl Dataview {
    /// Mount a fresh view: before any submission the displayed value is the
    /// fixed placeholder text.
    pub fn new() -> (v: Dataview)
        ensures
            v@ == initial_state(),
            v@.shown == placeholder(),
    {
        let v = Dataview {
            query: String::new(),
            holder: Message::initial(),
            halted: false,
            requests: Ghost(Seq::empty()),
        };
        proof {
            assert(v@ =~= initial_state());
        }
        v
    }

    /// The text the read-only display area shows: the holder's value.
    pub fn displayed(&self) -> (r: &String)
        ensures
            r@ == self@.shown,
    {
        &self.holder.data
    }

    /// A change event on the text field: replace the draft with `text`.
    /// The shared holder is untouched, so the displayed value cannot change.
    pub fn edit(&mut self, text: String)
        ensures
            final(self)@ == edited(old(self)@, text@),
            final(self)@.shown == old(self)@.shown,
    {
        if self.halted {
            return;
        }
        self.query = text;
    }

    /// A click on the submit control: issue exactly one request whose body
    /// is the current draft, addressed to the fixed endpoint. The holder and
    /// the draft are untouched. A halted client issues nothing.
    pub fn submit(&mut self) -> (r: Option<Request>)
        ensures
            final(self)@ == submitted(old(self)@),
            !old(self)@.halted ==> (r matches Some(req)
                && req.body@ == old(self)@.draft
                && req.url@ == config::endpoint()
                && final(self)@.requests == old(self)@.requests.push(old(self)@.draft)),
            old(self)@.halted ==> r is None,
    {
        if self.halted {
            return None;
        }
        let body = self.query.clone();
        self.requests = Ghost(self.requests@.push(self.query@));
        Some(Request { url: String::from_str(config::TOYDB), body })
    }

    /// Completion of a transport call: a response `r` makes the displayed
    /// value exactly `r`; a failure halts the client with the displayed
    /// value unchanged, so no error message is ever shown.
    pub fn complete(&mut self, outcome: Outcome)
        ensures
            final(self)@ == arrived(old(self)@, outcome@),
    {
        if self.halted {
            return;
        }
        match outcome {
            Outcome::Response(r) => {
                self.holder = self.holder.reduce(r);
            },
            Outcome::Failure => {
                self.halted = true;
            },
        }
    }
}

/// The spec-level image of one event a session processes: a change event
/// on the text field, a click on the submit control, or the completion of
/// an in-flight transport call.
pub enum EventView {
    Edit(Seq<char>),
    Submit,
    Arrival(OutcomeView),
}

/// One event applied to a session state.
pub open spec fn step(s: ViewState, e: EventView) -> ViewState {
    match e {
        EventView::Edit(t) => edited(s, t),
        EventView::Submit => submitted(s),
        EventView::Arrival(o) => arrived(s, o),
    }
}

/// A whole sequence of events applied in order.
pub open spec fn run(s: ViewState, es: Seq<EventView>) -> ViewState
    decreases es.len(),
{
    if es.len() == 0 {
        s
    } else {
        run(step(s, es[0]), es.subrange(1, es.len() as int))
    }
}

/// Law: only an arrival writes the holder — any run of edits and submits,
/// however long, leaves the displayed value exactly where it was.
pub proof fn lemma_no_arrival_preserves_shown(s: ViewState, es: Seq<EventView>)
    requires
        forall|i: int| 0 <= i < es.len() ==> !(es[i] is Arrival),
    ensures
        run(s, es).shown == s.shown,
    decreases es.len(),
{
    if es.len() > 0 {
        let s1 = step(s, es[0]);
        assert(s1.shown == s.shown);
        let rest = es.subrange(1, es.len() as int);
        assert(forall|i: int| 0 <= i < rest.len() ==> !(#[trigger] rest[i] is Arrival));
        lemma_no_arrival_preserves_shown(s1, rest);
    }
}

/// Law: before any response has arrived, the displayed value is still the
/// fixed placeholder text, whatever was edited or submitted meanwhile.
pub proof fn lemma_placeholder_before_first_arrival(es: Seq<EventView>)
    requires
        forall|i: int| 0 <= i < es.len() ==> !(es[i] is Arrival),
    ensures
        run(initial_state(), es).shown == placeholder(),
{
    lemma_no_arrival_preserves_shown(initial_state(), es);
}

/// Law: a submission issues exactly one request, and its body is the draft
/// verbatim; the displayed value and the draft itself are untouched.
pub proof fn lemma_submit_issues_exactly_one(s: ViewState)
    requires
        !s.halted,
    ensures
        submitted(s).requests == s.requests.push(s.draft),
        submitted(s).requests.len() == s.requests.len() + 1,
        submitted(s).requests.last() == s.draft,
        submitted(s).shown == s.shown,
        submitted(s).draft == s.draft,
{
}

/// Law: after a response arrives, the displayed value is that response
/// exactly — no transformation, no truncation.
pub proof fn lemma_response_shown_verbatim(s: ViewState, r: Seq<char>)
    requires
        !s.halted,
    ensures
        arrived(s, OutcomeView::Response(r)).shown == r,
        !arrived(s, OutcomeView::Response(r)).halted,
{
}

/// Law: editing the draft, however often and with whatever text, never
/// changes the holder's displayed value, and issues no request.
pub proof fn lemma_edit_never_touches_holder(s: ViewState, text: Seq<char>)
    ensures
        edited(s, text).shown == s.shown,
        edited(s, text).requests == s.requests,
        edited(s, text).halted == s.halted,
{
}

/// Law: with two submissions in flight, the displayed value is decided by
/// arrival order alone — whichever response arrives last wins, not
/// whichever query was submitted last. This is the expected behaviour:
/// nothing cancels a stale in-flight request.
pub proof fn lemma_last_arrival_wins(
    s: ViewState,
    v1: Seq<char>,
    v2: Seq<char>,
    r1: Seq<char>,
    r2: Seq<char>,
)
    requires
        !s.halted,
    ensures
        ({
            let in_flight = submitted(edited(submitted(edited(s, v1)), v2));
            &&& arrived(arrived(in_flight, OutcomeView::Response(r2)),
                OutcomeView::Response(r1)).shown == r1
            &&& arrived(arrived(in_flight, OutcomeView::Response(r1)),
                OutcomeView::Response(r2)).shown == r2
            &&& in_flight.requests == s.requests.push(v1).push(v2)
        }),
{
}

/// Law: a transport failure halts the client with the displayed value
/// unchanged — no error message becomes visible — and from then on the
/// client is totally unresponsive: no event changes its state any more.
pub proof fn lemma_failure_halts_client(s: ViewState, text: Seq<char>, o: OutcomeView)
    requires
        !s.halted,
    ensures
        arrived(s, OutcomeView::Failure).halted,
        arrived(s, OutcomeView::Failure).shown == s.shown,
        arrived(s, OutcomeView::Failure).requests == s.requests,
        edited(arrived(s, OutcomeView::Failure), text) == arrived(s, OutcomeView::Failure),
        submitted(arrived(s, OutcomeView::Failure)) == arrived(s, OutcomeView::Failure),
        arrived(arrived(s, OutcomeView::Failure), o) == arrived(s, OutcomeView::Failure),
{
}

} // verus!
