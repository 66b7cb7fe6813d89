//! The one-shot request engine: handshake, feature check, then commands
//! each matched with its acknowledgement, and always a final `Quit`.
use vstd::prelude::*;
use crate::client::{Request, RequestView, Response, requests_view};
use crate::error::{Baps3Error, ErrorView, unit_result_view};
use crate::message::{Message, MessageView};
use crate::util::{slicify, str_eq, strs_eq_from, strings_view, strs_view, unslicify};

verus! {

/// Whether a message is the server's greeting: `OHAI` with one argument,
/// the server's identity.
pub open spec fn greets(m: MessageView) -> bool {
    m.word == "OHAI"@ && m.args.len() == 1
}

/// What the first response of a conversation decides.
pub open spec fn greeting_verdict(resp: Option<Response>) -> Result<(), ErrorView> {
    match resp {
        Some(Response::Message(m)) => if greets(m@) {
            Ok(())
        } else {
            Err(ErrorView::NotBaps3Server)
        },
        _ => Err(ErrorView::HungUp),
    }
}

/// Whether some needed feature is not among those the server has.
pub open spec fn lacks(needed: Seq<Seq<char>>, have: Seq<Seq<char>>) -> bool {
    exists|i: int| 0 <= i < needed.len() && !have.contains(#[trigger] needed[i])
}

/// What the feature advertisement decides: the server's features, or why
/// the conversation ends.
pub open spec fn features_verdict(needed: Seq<Seq<char>>, resp: Option<Response>) -> Result<
    Seq<Seq<char>>,
    ErrorView,
> {
    match resp {
        Some(Response::Message(m)) => if m@.word == "FEATURES"@ {
            if lacks(needed, m@.args) {
                Err(ErrorView::MissingFeatures { wanted: needed, have: m@.args })
            } else {
                Ok(m@.args)
            }
        } else {
            Err(
                ErrorView::UnexpectedResponse {
                    code: m@.word,
                    args: m@.args,
                    expectation: "FEATURES"@,
                },
            )
        },
        _ => Err(ErrorView::HungUp),
    }
}

/// Whether `m` is the acknowledgement `code` of the command `word args`,
/// where acknowledgements other than `OK` carry an advice first.
pub open spec fn answers(
    m: MessageView,
    code: Seq<char>,
    word: Seq<char>,
    args: Seq<Seq<char>>,
) -> bool {
    if code == "OK"@ {
        m.word == code && m.args == seq![word] + args
    } else {
        m.word == code && m.args.len() >= 1 && m.args.skip(1) == seq![word] + args
    }
}

/// What a response decides while the command `word args` awaits its
/// acknowledgement: nothing for a message that does not answer it.
pub open spec fn ack_verdict(word: Seq<char>, args: Seq<Seq<char>>, resp: Option<Response>) -> Option<
    Result<(), ErrorView>,
> {
    match resp {
        Some(Response::Message(m)) => if answers(m@, "OK"@, word, args) {
            Some(Ok(()))
        } else if answers(m@, "WHAT"@, word, args) {
            Some(Err(ErrorView::CmdInvalid { advice: m@.args[0] }))
        } else if answers(m@, "FAIL"@, word, args) {
            Some(Err(ErrorView::CmdFailed { advice: m@.args[0] }))
        } else {
            None
        },
        _ => Some(Err(ErrorView::HungUp)),
    }
}

/// Checks that the first response of a conversation is the server's greeting.
pub fn check_baps3(resp: &Option<Response>) -> (r: Result<(), Baps3Error>)
    ensures
        crate::error::unit_result_view(r) == greeting_verdict(*resp),
{
    match resp {
        Some(Response::Message(m)) => {
            if str_eq(m.word(), "OHAI") && m.args().len() == 1 {
                Ok(())
            } else {
                Err(Baps3Error::NotBaps3Server)
            }
        },
        _ => Err(Baps3Error::HungUp),
    }
}

/// Determines whether a server is missing any of the features needed.
pub fn missing_features(needed: &[&str], have: &[&str]) -> (r: bool)
    ensures
        r == lacks(strs_view(needed@), strs_view(have@)),
{
    let mut i: usize = 0;
    while i < needed.len()
        invariant
            i <= needed.len(),
            forall|k: int| 0 <= k < i ==> strs_view(have@).contains(#[trigger] strs_view(needed@)[k]),
        decreases needed.len() - i,
    {
        let mut found = false;
        let mut j: usize = 0;
        while j < have.len()
            invariant
                i < needed.len(),
                j <= have.len(),
                found ==> strs_view(have@).contains(needed@[i as int]@),
                !found ==> forall|k: int| 0 <= k < j ==> have@[k]@ != needed@[i as int]@,
            decreases have.len() - j,
        {
            if str_eq(needed[i], have[j]) {
                assert(strs_view(have@)[j as int] == needed@[i as int]@);
                found = true;
            }
            j = j + 1;
        }
        if !found {
            assert(!strs_view(have@).contains(strs_view(needed@)[i as int]));
            return true;
        }
        i = i + 1;
    }
    false
}

/// Checks the server's feature advertisement against the features needed,
/// and returns the features the server has.
pub fn check_features(needed: &[&str], resp: &Option<Response>) -> (r: Result<Vec<String>, Baps3Error>)
    ensures
        match r {
            Ok(v) => features_verdict(strs_view(needed@), *resp) == Ok::<Seq<Seq<char>>, ErrorView>(strings_view(v@)),
            Err(e) => features_verdict(strs_view(needed@), *resp) == Err::<Seq<Seq<char>>, ErrorView>(e@),
        },
{
    match resp {
        Some(Response::Message(m)) => {
            let have = m.args();
            if str_eq(m.word(), "FEATURES") {
                if missing_features(needed, have.as_slice()) {
                    Err(
                        Baps3Error::MissingFeatures {
                            wanted: unslicify(needed),
                            have: unslicify(have.as_slice()),
                        },
                    )
                } else {
                    Ok(unslicify(have.as_slice()))
                }
            } else {
                Err(
                    Baps3Error::UnexpectedResponse {
                        code: String::from_str(m.word()),
                        args: unslicify(have.as_slice()),
                        expectation: String::from_str("FEATURES"),
                    },
                )
            }
        },
        _ => Err(Baps3Error::HungUp),
    }
}

/// Decides what a response means while the command `word args` awaits its
/// acknowledgement; `None` when the response is about something else.
pub fn ack_response(word: &str, args: &[&str], resp: &Option<Response>) -> (r: Option<
    Result<(), Baps3Error>,
>)
    ensures
        match r {
            Some(x) => ack_verdict(word@, strs_view(args@), *resp) == Some(crate::error::unit_result_view(x)),
            None => ack_verdict(word@, strs_view(args@), *resp) is None,
        },
{
    match resp {
        Some(Response::Message(m)) => {
            proof {
                reveal_strlit("OK");
                reveal_strlit("WHAT");
                reveal_strlit("FAIL");
                assert("WHAT"@.len() != "OK"@.len());
                assert("FAIL"@.len() != "OK"@.len());
            }
            let mut expect: Vec<&str> = Vec::new();
            expect.push(word);
            let mut i: usize = 0;
            while i < args.len()
                invariant
                    i <= args.len(),
                    expect@.len() == i + 1,
                    expect@[0]@ == word@,
                    forall|j: int| 0 <= j < i ==> expect@[j + 1]@ == args@[j]@,
                decreases args.len() - i,
            {
                expect.push(args[i]);
                i = i + 1;
            }
            assert(strs_view(expect@) =~= seq![word@] + strs_view(args@));
            let margs = m.args();
            assert(strs_view(margs@).skip(0) =~= strs_view(margs@));
            if str_eq(m.word(), "OK") && strs_eq_from(margs.as_slice(), 0, expect.as_slice()) {
                Some(Ok(()))
            } else if str_eq(m.word(), "WHAT") && margs.len() >= 1 && strs_eq_from(
                margs.as_slice(),
                1,
                expect.as_slice(),
            ) {
                Some(Err(Baps3Error::CmdInvalid { advice: String::from_str(margs[0]) }))
            } else if str_eq(m.word(), "FAIL") && margs.len() >= 1 && strs_eq_from(
                margs.as_slice(),
                1,
                expect.as_slice(),
            ) {
                Some(Err(Baps3Error::CmdFailed { advice: String::from_str(margs[0]) }))
            } else {
                None
            }
        },
        _ => Some(Err(Baps3Error::HungUp)),
    }
}

/// Where a one-shot conversation stands.
#[derive(Clone, Copy, Debug, PartialEq, Eq, Structural)]
pub enum Stage {
    /// Waiting for the server's greeting.
    Greeting,
    /// Waiting for the server's feature advertisement.
    Features,
    /// A command has been sent and waits for its acknowledgement.
    Acknowledging,
    /// The conversation is over and `Quit` has been requested.
    Finished,
}

/// What a one-shot conversation holds.
pub struct OneShotView {
    pub stage: Stage,
    /// The index of the command awaiting acknowledgement.
    pub current: nat,
    pub needed: Seq<Seq<char>>,
    pub commands: Seq<MessageView>,
}

/// What one step of a conversation asks of the connection and tells the caller.
pub struct StepView {
    pub requests: Seq<RequestView>,
    pub outcome: Option<Result<(), ErrorView>>,
}

/// What one step of a conversation produces: the requests to hand to the
/// writer, in order, and the result once the conversation is over.
#[derive(Debug)]
pub struct Step {
    pub requests: Vec<Request>,
    pub outcome: Option<Result<(), Baps3Error>>,
}

impl View for Step {
    type V = StepView;

    open spec fn view(&self) -> StepView {
        StepView {
            requests: requests_view(self.requests@),
            outcome: match self.outcome {
                Some(r) => Some(unit_result_view(r)),
                None => None,
            },
        }
    }
}

/// The step that leaves the conversation where it is and does nothing.
pub open spec fn quiet_step() -> StepView {
    StepView { requests: Seq::empty(), outcome: None }
}

/// Ends the conversation with `r`, asking the writer to quit.
pub open spec fn finish(e: OneShotView, r: Result<(), ErrorView>) -> (OneShotView, StepView) {
    (
        OneShotView { stage: Stage::Finished, current: e.current, needed: e.needed, commands: e.commands },
        StepView { requests: seq![RequestView::Quit], outcome: Some(r) },
    )
}

/// Sends command `i`, or ends the conversation successfully when there is none.
pub open spec fn send_from(e: OneShotView, i: nat) -> (OneShotView, StepView) {
    if i < e.commands.len() {
        (
            OneShotView { stage: Stage::Acknowledging, current: i, needed: e.needed, commands: e.commands },
            StepView { requests: seq![RequestView::Send(e.commands[i as int])], outcome: None },
        )
    } else {
        finish(e, Ok(()))
    }
}

/// How a one-shot conversation moves on one response.
pub open spec fn one_shot_next(e: OneShotView, resp: Option<Response>) -> (OneShotView, StepView) {
    match e.stage {
        Stage::Greeting => match greeting_verdict(resp) {
            Ok(()) => (
                OneShotView { stage: Stage::Features, current: e.current, needed: e.needed, commands: e.commands },
                quiet_step(),
            ),
            Err(x) => finish(e, Err(x)),
        },
        Stage::Features => match features_verdict(e.needed, resp) {
            Ok(_) => send_from(e, 0),
            Err(x) => finish(e, Err(x)),
        },
        Stage::Acknowledging => {
            let m = e.commands[e.current as int];
            match ack_verdict(m.word, m.args, resp) {
                None => (e, quiet_step()),
                Some(Ok(())) => send_from(e, e.current + 1),
                Some(Err(x)) => finish(e, Err(x)),
            }
        },
        Stage::Finished => (e, quiet_step()),
    }
}

/// A one-shot conversation with a server: it checks the greeting and the
/// features, then sends each command in turn and waits for its
/// acknowledgement, stopping at the first failure, and at the end always
/// asks the writer to quit.
pub struct OneShot {
    needed: Vec<String>,
    commands: Vec<Message>,
    stage: Stage,
    current: usize,
}

impl View for OneShot {
    type V = OneShotView;

    closed spec fn view(&self) -> OneShotView {
        OneShotView {
            stage: self.stage,
            current: self.current as nat,
            needed: strings_view(self.needed@),
            commands: self.commands@.map_values(|m: Message| m@),
        }
    }
}

impl OneShot {
    #[verifier::type_invariant]
    closed spec fn inv(self) -> bool {
        self.stage == Stage::Acknowledging ==> self.current < self.commands.len()
    }

    /// Whether the conversation can be at this point.
    pub open spec fn reachable(v: OneShotView) -> bool {
        v.stage == Stage::Acknowledging ==> v.current < v.commands.len()
    }

    /// Starts a conversation that needs the features `needed` and then
    /// sends `commands` in order.
    pub fn new(needed: &[&str], commands: Vec<Message>) -> (r: OneShot)
        ensures
            r@.stage == Stage::Greeting,
            r@.needed == strs_view(needed@),
            r@.commands == commands@.map_values(|m: Message| m@),
    {
        OneShot { needed: unslicify(needed), commands, stage: Stage::Greeting, current: 0 }
    }

    /// Where the conversation stands.
    pub fn stage(&self) -> (r: Stage)
        ensures
            r == self@.stage,
    {
        self.stage
    }

    /// Tells whether the conversation is over.
    pub fn is_finished(&self) -> (r: bool)
        ensures
            r == (self@.stage == Stage::Finished),
    {
        self.stage == Stage::Finished
    }

    /// Ends the conversation with `r`.
    fn finish(&mut self, r: Result<(), Baps3Error>) -> (out: Step)
        ensures
            (final(self)@, out@) == finish(old(self)@, unit_result_view(r)),
    {
        self.stage = Stage::Finished;
        let mut requests: Vec<Request> = Vec::new();
        requests.push(Request::Quit);
        assert(requests_view(requests@) =~= seq![RequestView::Quit]);
        Step { requests, outcome: Some(r) }
    }

    /// Sends command `i`, or ends the conversation when there is none.
    fn send_from(&mut self, i: usize) -> (out: Step)
        ensures
            (final(self)@, out@) == send_from(old(self)@, i as nat),
    {
        if i < self.commands.len() {
            let m = self.commands[i].clone();
            self.current = i;
            self.stage = Stage::Acknowledging;
            let mut requests: Vec<Request> = Vec::new();
            requests.push(Request::SendMessage(m));
            assert(requests_view(requests@) =~= seq![RequestView::Send(self@.commands[i as int])]);
            Step { requests, outcome: None }
        } else {
            self.finish(Ok(()))
        }
    }

    /// Moves the conversation on by one response from the server; `None`
    /// stands for a response channel that has closed.
    pub fn step(&mut self, resp: Option<Response>) -> (out: Step)
        ensures
            (final(self)@, out@) == one_shot_next(old(self)@, resp),
    {
        proof {
            use_type_invariant(&*self);
        }
        let quiet = Step { requests: Vec::new(), outcome: None };
        assert(quiet@ == quiet_step()) by {
            assert(requests_view(quiet.requests@) =~= Seq::<RequestView>::empty());
        }
        match self.stage {
            Stage::Greeting => match check_baps3(&resp) {
                Ok(()) => {
                    self.stage = Stage::Features;
                    quiet
                },
                Err(e) => self.finish(Err(e)),
            },
            Stage::Features => {
                let verdict = {
                    let nv = slicify(&self.needed);
                    check_features(nv.as_slice(), &resp)
                };
                match verdict {
                    Ok(_) => self.send_from(0),
                    Err(e) => self.finish(Err(e)),
                }
            },
            Stage::Acknowledging => {
                let verdict = {
                    let m = &self.commands[self.current];
                    let margs = m.args();
                    ack_response(m.word(), margs.as_slice(), &resp)
                };
                match verdict {
                    None => quiet,
                    Some(Ok(())) => self.send_from(self.current + 1),
                    Some(Err(e)) => self.finish(Err(e)),
                }
            },
            Stage::Finished => quiet,
        }
    }
}

/// The state a conversation reaches on a sequence of responses, and every
/// request it makes on the way, in order.
pub open spec fn run(e: OneShotView, resps: Seq<Option<Response>>) -> (OneShotView, Seq<RequestView>)
    decreases resps.len(),
{
    if resps.len() == 0 {
        (e, Seq::empty())
    } else {
        let (e1, s1) = one_shot_next(e, resps[0]);
        let (e2, rest) = run(e1, resps.drop_first());
        (e2, s1.requests + rest)
    }
}

/// A finished conversation stays finished and asks for nothing more.
pub proof fn lemma_finished_is_silent(e: OneShotView, resps: Seq<Option<Response>>)
    requires
        e.stage == Stage::Finished,
    ensures
        run(e, resps) == (e, Seq::<RequestView>::empty()),
    decreases resps.len(),
{
    if resps.len() > 0 {
        lemma_finished_is_silent(e, resps.drop_first());
    }
}

/// Whatever the server sends, a conversation asks the writer to quit exactly
/// once: the `Quit` request is the last request it ever makes, and it makes
/// it precisely when the conversation is over.
pub proof fn lemma_quit_exactly_once(e: OneShotView, resps: Seq<Option<Response>>)
    requires
        e.stage != Stage::Finished,
        OneShot::reachable(e),
    ensures
        ({
            let (f, rs) = run(e, resps);
            &&& f.stage == Stage::Finished ==> rs.len() > 0 && rs.last() is Quit
            &&& forall|i: int|
                0 <= i < rs.len() && (#[trigger] rs[i]) is Quit ==> i == rs.len() - 1 && f.stage
                    == Stage::Finished
        }),
    decreases resps.len(),
{
    if resps.len() > 0 {
        let (e1, s1) = one_shot_next(e, resps[0]);
        let (f, rest) = run(e1, resps.drop_first());
        if e1.stage == Stage::Finished {
            lemma_finished_is_silent(e1, resps.drop_first());
            assert(s1.requests =~= seq![RequestView::Quit]);
            assert(s1.requests + rest =~= seq![RequestView::Quit]);
        } else {
            lemma_quit_exactly_once(e1, resps.drop_first());
            assert(forall|i: int| 0 <= i < s1.requests.len() ==> !(s1.requests[i] is Quit));
            let rs = s1.requests + rest;
            assert forall|i: int| 0 <= i < rs.len() && (#[trigger] rs[i]) is Quit implies i == rs.len()
                - 1 && f.stage == Stage::Finished by {
                if i >= s1.requests.len() {
                    assert(rs[i] == rest[i - s1.requests.len()]);
                }
            }
            if f.stage == Stage::Finished {
                assert(rs.last() == rest.last());
            }
        }
    }
}

/// When the feature check fails, the only request the conversation ever
/// makes afterwards is `Quit`: no command is sent.
pub proof fn lemma_failed_feature_check_sends_nothing(
    e: OneShotView,
    resp: Option<Response>,
    later: Seq<Option<Response>>,
)
    requires
        e.stage == Stage::Features,
        features_verdict(e.needed, resp) is Err,
    ensures
        run(e, seq![resp] + later).1 == seq![RequestView::Quit],
        run(e, seq![resp] + later).0.stage == Stage::Finished,
{
    let resps = seq![resp] + later;
    assert(resps[0] == resp);
    assert(resps.drop_first() =~= later);
    let (e1, s1) = one_shot_next(e, resp);
    lemma_finished_is_silent(e1, later);
    assert(s1.requests + Seq::<RequestView>::empty() =~= seq![RequestView::Quit]);
}

/// Responses that do not answer the command awaiting acknowledgement, such
/// as unrelated notifications or an answer to another command, are skipped:
/// the conversation stays where it is and asks for nothing.
pub proof fn lemma_unrelated_responses_skipped(e: OneShotView, resps: Seq<Option<Response>>)
    requires
        e.stage == Stage::Acknowledging,
        forall|i: int|
            0 <= i < resps.len() ==> ack_verdict(
                e.commands[e.current as int].word,
                e.commands[e.current as int].args,
                #[trigger] resps[i],
            ) is None,
    ensures
        run(e, resps) == (e, Seq::<RequestView>::empty()),
    decreases resps.len(),
{
    if resps.len() > 0 {
        assert(ack_verdict(
            e.commands[e.current as int].word,
            e.commands[e.current as int].args,
            resps[0],
        ) is None);
        let rest = resps.drop_first();
        assert forall|i: int| 0 <= i < rest.len() implies ack_verdict(
            e.commands[e.current as int].word,
            e.commands[e.current as int].args,
            #[trigger] rest[i],
        ) is None by {
            assert(rest[i] == resps[i + 1]);
        }
        lemma_unrelated_responses_skipped(e, rest);
        assert(Seq::<RequestView>::empty() + Seq::<RequestView>::empty() =~= Seq::<RequestView>::empty());
    }
}

} // verus!
