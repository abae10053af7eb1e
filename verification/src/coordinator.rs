//! The speech coordinator: one synthesis session, its settings, and the
//! order of the platform calls that each operation consists of.
//!
//! The coordinator makes no platform call itself. An operation lays down the
//! calls it consists of; the host carries out the one that [`SpeechApp::request`]
//! shows and hands the platform's answer to [`SpeechApp::advance`], until
//! nothing is left. While an operation is under way no other can begin, so
//! the calls of two operations never mix.

use vstd::prelude::*;
use vstd::string::StringExecFns;
use crate::settings::{clamp_rate, clamp_volume, clamped_rate, clamped_volume, Config, ConfigView};
use crate::voice::{
    find_voice, get_voice_name, identifier_at, position_of, resolve_voice, resolved, Voice,
};

verus! {

/// A failed call into the speech platform, as the platform reported it.
#[derive(Debug, Clone, PartialEq, Eq)]
pub struct EngineError {
    /// The platform's result code.
    pub code: i32,
    /// The platform's description of the failure.
    pub message: String,
}

/// One call that the host makes on the coordinator's behalf.
#[derive(Debug, Clone, PartialEq, Eq)]
pub enum Request {
    /// Write the current settings to durable storage. Failure is not reported.
    Store,
    /// Discard the synthesis session, which stops speech that is under way,
    /// and construct a new one.
    Recreate,
    /// Make the voice at this position of the catalog the session's voice.
    SetVoice(usize),
    /// Set the session's rate of speech.
    SetRate(i32),
    /// Set the session's volume.
    SetVolume(u32),
    /// Submit this text to the session for speaking.
    Speak(String),
}

/// Mathematical value of a [`Request`].
pub enum RequestView {
    Store,
    Recreate,
    SetVoice(int),
    SetRate(int),
    SetVolume(int),
    Speak(Seq<char>),
}

impl View for Request {
    type V = RequestView;

    open spec fn view(&self) -> RequestView {
        match self {
            Request::Store => RequestView::Store,
            Request::Recreate => RequestView::Recreate,
            Request::SetVoice(position) => RequestView::SetVoice(*position as int),
            Request::SetRate(rate) => RequestView::SetRate(*rate as int),
            Request::SetVolume(volume) => RequestView::SetVolume(*volume as int),
            Request::Speak(text) => RequestView::Speak(text@),
        }
    }
}

/// Where the coordinator stands between operations.
#[derive(Debug, Clone, Copy, PartialEq, Eq, Structural)]
pub enum Phase {
    /// Built, but the session does not carry the settings yet.
    Uninitialized,
    /// The session is live and carries the current settings.
    Ready,
    /// A platform call failed: the session is in doubt until speech is
    /// requested again, which builds it anew.
    Faulted,
    /// Torn down. No operation is accepted any more.
    ShutDown,
}

/// Why an operation was not begun.
#[derive(Debug, Clone, Copy, PartialEq, Eq, Structural)]
pub enum Refusal {
    /// Another operation is under way.
    Busy,
    /// The coordinator was shut down.
    ShutDown,
}

/// What an answer of the platform led to.
#[derive(Debug, PartialEq, Eq)]
pub enum Progress {
    /// No operation was under way; the answer was ignored.
    Idle,
    /// The operation goes on with the next request.
    Continue,
    /// The operation is complete. Speech that was submitted carries the
    /// identifier that the platform gave it.
    Finished(Option<u32>),
    /// The platform call failed and the operation was given up.
    Failed(EngineError),
}

/// The calls that select the voice for the settings: one call for the voice
/// that the stored identifier leads to, and none where no voice is installed.
pub open spec fn voice_script(voices: Seq<Voice>, config: ConfigView) -> Seq<RequestView> {
    match resolved(voices, config.voice_name) {
        Some(position) => seq![RequestView::SetVoice(position)],
        None => Seq::<RequestView>::empty(),
    }
}

/// The calls that make a fresh session carry the settings: voice, rate, volume.
pub open spec fn settings_script(voices: Seq<Voice>, config: ConfigView) -> Seq<RequestView> {
    voice_script(voices, config) + seq![
        RequestView::SetRate(config.rate),
        RequestView::SetVolume(config.volume),
    ]
}

/// The calls that speaking a text consists of: a new session in place of
/// the current one, the settings applied to it, and only then the text.
pub open spec fn speak_script(
    voices: Seq<Voice>,
    config: ConfigView,
    text: Seq<char>,
) -> Seq<RequestView> {
    seq![RequestView::Recreate] + settings_script(voices, config) + seq![RequestView::Speak(text)]
}

/// The call that writes the settings, where a change is to be kept.
pub open spec fn store_script(store: bool) -> Seq<RequestView> {
    if store {
        seq![RequestView::Store]
    } else {
        Seq::<RequestView>::empty()
    }
}

/// What a synthesis session has been given since it was constructed.
pub struct SessionView {
    /// The voice applied last, by its position in the catalog.
    pub voice: Option<int>,
    /// The rate applied last.
    pub rate: Option<int>,
    /// The volume applied last.
    pub volume: Option<int>,
    /// The texts submitted, in order.
    pub spoken: Seq<Seq<char>>,
}

impl SessionView {
    /// A session that has just been constructed.
    pub open spec fn fresh() -> SessionView {
        SessionView { voice: None, rate: None, volume: None, spoken: Seq::empty() }
    }

    /// The session after the platform carried out a request with success.
    /// Replacing the session leaves nothing of the old one.
    pub open spec fn after(self, request: RequestView) -> SessionView {
        match request {
            RequestView::Store => self,
            RequestView::Recreate => SessionView::fresh(),
            RequestView::SetVoice(position) => SessionView { voice: Some(position), ..self },
            RequestView::SetRate(rate) => SessionView { rate: Some(rate), ..self },
            RequestView::SetVolume(volume) => SessionView { volume: Some(volume), ..self },
            RequestView::Speak(text) => SessionView { spoken: self.spoken.push(text), ..self },
        }
    }

    /// The session after the platform carried out a run of requests, each
    /// with success.
    pub open spec fn after_all(self, requests: Seq<RequestView>) -> SessionView
        decreases requests.len(),
    {
        if requests.len() == 0 {
            self
        } else {
            self.after(requests[0]).after_all(requests.drop_first())
        }
    }
}

/// Mathematical value of a [`SpeechApp`].
pub struct SpeechAppView {
    /// The installed voices, as enumerated at start-up.
    pub voices: Seq<Voice>,
    /// The current settings.
    pub config: ConfigView,
    /// Where the coordinator stands between operations.
    pub phase: Phase,
    /// The requests of the operation under way that the platform has not
    /// answered yet; the first of them is the one in flight.
    pub pending: Seq<RequestView>,
    /// Whether the operation under way builds the session anew, so that its
    /// completion makes the coordinator ready.
    pub renews: bool,
}

impl SpeechAppView {
    /// An operation is under way.
    pub open spec fn busy(self) -> bool {
        self.pending.len() > 0
    }

    /// What holds of every coordinator: the settings are in range, every
    /// voice that a pending request names is installed, and nothing is
    /// pending after shutdown.
    pub open spec fn valid(self) -> bool {
        &&& self.config.in_range()
        &&& forall|k: int|
            0 <= k < self.pending.len() ==> (#[trigger] self.pending[k]
                matches RequestView::SetVoice(position) ==> 0 <= position < self.voices.len())
        &&& self.phase == Phase::ShutDown ==> !self.busy()
    }

    /// Why an operation cannot begin now, if it cannot.
    pub open spec fn refusal(self) -> Option<Refusal> {
        if self.phase == Phase::ShutDown {
            Some(Refusal::ShutDown)
        } else if self.busy() {
            Some(Refusal::Busy)
        } else {
            None
        }
    }

    /// The coordinator with an operation begun on it.
    pub open spec fn begun(
        self,
        config: ConfigView,
        script: Seq<RequestView>,
        renews: bool,
    ) -> SpeechAppView {
        SpeechAppView { config, pending: script, renews, ..self }
    }

    /// The outcome of trying to begin an operation: it is refused, and
    /// nothing changes, while another is under way or after shutdown.
    pub open spec fn attempt(
        self,
        config: ConfigView,
        script: Seq<RequestView>,
        renews: bool,
    ) -> (SpeechAppView, Result<(), Refusal>) {
        match self.refusal() {
            Some(refusal) => (self, Err(refusal)),
            None => (self.begun(config, script, renews), Ok(())),
        }
    }

    /// The identifier that a lookup goes by: the one given, else the one in
    /// the settings.
    pub open spec fn wanted(self, voice_name: Option<&str>) -> Seq<char> {
        match voice_name {
            Some(name) => name@,
            None => self.config.voice_name,
        }
    }

    /// The coordinator after the platform answered `count` requests in a
    /// row with success.
    pub open spec fn after_successes(self, count: nat) -> SpeechAppView
        decreases count,
    {
        if count == 0 {
            self
        } else {
            self.answered(true).after_successes((count - 1) as nat)
        }
    }

    /// Whether an answer to the request in flight lets the operation go on:
    /// a success does, and so does any answer to a request to store.
    pub open spec fn accepts(self, succeeded: bool) -> bool {
        succeeded || self.pending[0] == RequestView::Store
    }

    /// The coordinator after the platform answered the request in flight.
    ///
    /// An accepted answer moves on to the next request; after the last one,
    /// an operation that built the session anew leaves the coordinator
    /// ready. A failure gives the operation up and leaves the session in
    /// doubt. With nothing in flight the answer changes nothing.
    pub open spec fn answered(self, succeeded: bool) -> SpeechAppView {
        if !self.busy() {
            self
        } else if self.accepts(succeeded) {
            let rest = self.pending.drop_first();
            SpeechAppView {
                pending: rest,
                phase: if rest.len() == 0 && self.renews {
                    Phase::Ready
                } else {
                    self.phase
                },
                ..self
            }
        } else {
            SpeechAppView { pending: Seq::<RequestView>::empty(), phase: Phase::Faulted, ..self }
        }
    }
}

/// What [`SpeechApp::advance`] reports for an answer to the request in flight.
pub open spec fn progress_of(app: SpeechAppView, reply: Result<u32, EngineError>) -> Progress {
    if !app.busy() {
        Progress::Idle
    } else if app.accepts(reply.is_ok()) {
        if app.pending.len() > 1 {
            Progress::Continue
        } else {
            Progress::Finished(
                match (app.pending[0], reply) {
                    (RequestView::Speak(_), Ok(identifier)) => Some(identifier),
                    _ => None,
                },
            )
        }
    } else {
        Progress::Failed(reply->Err_0)
    }
}

/// Selecting a voice under an identifier that no installed voice carries
/// applies the first voice of the catalog. With no voice installed it makes
/// no platform call at all, so that it cannot fail.
pub proof fn lemma_voice_fallback(voices: Seq<Voice>, config: ConfigView)
    requires
        forall|any: int|
            0 <= any < voices.len() ==> (#[trigger] voices[any])@.identifier() != config.voice_name,
    ensures
        voices.len() > 0 ==> voice_script(voices, config) == seq![RequestView::SetVoice(0)],
        voices.len() == 0 ==> voice_script(voices, config) == Seq::<RequestView>::empty(),
{
    crate::voice::lemma_fallback(voices, config.voice_name);
}

/// The shape of speaking a text: the session is replaced first, the text is
/// submitted last, and in between the new session is only given its
/// settings, rate and volume being those of the settings. So the session
/// that receives a text has received no other, and a text that was being
/// spoken has lost its session before the new one is submitted.
pub proof fn lemma_speak_script_shape(voices: Seq<Voice>, config: ConfigView, text: Seq<char>)
    ensures
        ({
            let script = speak_script(voices, config, text);
            let last = script.len() - 1;
            &&& 3 <= last <= 4
            &&& script[0] == RequestView::Recreate
            &&& script[last] == RequestView::Speak(text)
            &&& script[last - 2] == RequestView::SetRate(config.rate)
            &&& script[last - 1] == RequestView::SetVolume(config.volume)
            &&& last == 4 ==> script[1] is SetVoice
            &&& last == 4 <==> voices.len() > 0
            &&& forall|k: int|
                0 < k < last ==> !(#[trigger] script[k] is Recreate) && !(script[k] is Speak)
                    && !(script[k] is Store)
        }),
{
    crate::voice::lemma_position_of(voices, config.voice_name);
}

/// Carrying out one run of requests after another is carrying out the two
/// joined.
pub proof fn lemma_after_all_joined(
    session: SessionView,
    first: Seq<RequestView>,
    second: Seq<RequestView>,
)
    ensures
        session.after_all(first + second) == session.after_all(first).after_all(second),
    decreases first.len(),
{
    if first.len() == 0 {
        assert(first + second =~= second);
    } else {
        assert((first + second).drop_first() =~= first.drop_first() + second);
        lemma_after_all_joined(session.after(first[0]), first.drop_first(), second);
    }
}

/// Carrying out a single request.
proof fn lemma_after_one(session: SessionView, request: RequestView)
    ensures
        session.after_all(seq![request]) == session.after(request),
{
    assert(seq![request].drop_first() =~= Seq::<RequestView>::empty());
    reveal_with_fuel(SessionView::after_all, 2);
}

/// Whatever session there was, and whatever it was speaking: once a text
/// has been spoken with success, the session is one that carries the voice
/// that the settings lead to, their rate and their volume, and that has
/// received this text and no other.
pub proof fn lemma_speak_outcome(
    session: SessionView,
    voices: Seq<Voice>,
    config: ConfigView,
    text: Seq<char>,
)
    ensures
        session.after_all(speak_script(voices, config, text)) == (SessionView {
            voice: resolved(voices, config.voice_name),
            rate: Some(config.rate),
            volume: Some(config.volume),
            spoken: seq![text],
        }),
{
    let fresh = SessionView::fresh();
    let voiced = fresh.after_all(voice_script(voices, config));
    assert(voiced == SessionView { voice: resolved(voices, config.voice_name), ..fresh }) by {
        match resolved(voices, config.voice_name) {
            Some(position) => lemma_after_one(fresh, RequestView::SetVoice(position)),
            None => {},
        }
    }
    let rate = seq![RequestView::SetRate(config.rate)];
    let volume = seq![RequestView::SetVolume(config.volume)];
    let submit = seq![RequestView::Speak(text)];
    let recreate = seq![RequestView::Recreate];
    assert(speak_script(voices, config, text) =~= recreate + (voice_script(voices, config) + (rate
        + (volume + submit))));
    lemma_after_all_joined(session, recreate, voice_script(voices, config) + (rate + (volume + submit)));
    lemma_after_one(session, RequestView::Recreate);
    lemma_after_all_joined(fresh, voice_script(voices, config), rate + (volume + submit));
    lemma_after_all_joined(voiced, rate, volume + submit);
    lemma_after_one(voiced, RequestView::SetRate(config.rate));
    let paced = voiced.after(RequestView::SetRate(config.rate));
    lemma_after_all_joined(paced, volume, submit);
    lemma_after_one(paced, RequestView::SetVolume(config.volume));
    let tuned = paced.after(RequestView::SetVolume(config.volume));
    lemma_after_one(tuned, RequestView::Speak(text));
    assert(Seq::<Seq<char>>::empty().push(text) =~= seq![text]);
}

/// An operation whose every request the platform answers with success
/// ends after as many answers as it has requests. It then leaves nothing
/// pending, and the coordinator is ready if the operation built the session
/// anew and stands where it stood otherwise.
pub proof fn lemma_completion(app: SpeechAppView)
    ensures
        app.after_successes(app.pending.len()) == (SpeechAppView {
            pending: Seq::<RequestView>::empty(),
            phase: if app.busy() && app.renews {
                Phase::Ready
            } else {
                app.phase
            },
            ..app
        }),
    decreases app.pending.len(),
{
    if app.pending.len() == 0 {
        assert(app.pending =~= Seq::<RequestView>::empty());
    } else {
        lemma_completion(app.answered(true));
    }
}

/// A platform call that fails ends the operation at once: the requests that
/// were to follow are dropped and the session is in doubt. Only a failure
/// to store the settings is passed over.
pub proof fn lemma_failure(app: SpeechAppView)
    requires
        app.busy(),
    ensures
        app.pending[0] != RequestView::Store ==> !app.answered(false).busy() && app.answered(
            false,
        ).phase == Phase::Faulted,
        app.pending[0] == RequestView::Store ==> app.answered(false) == app.answered(true),
{
}

/// The requests of two operations never mix: while one is under way, an
/// attempt to begin another is refused and changes nothing, so that the
/// requests that remain are still those of the first.
pub proof fn lemma_one_at_a_time(
    app: SpeechAppView,
    config: ConfigView,
    script: Seq<RequestView>,
    renews: bool,
)
    requires
        app.busy(),
    ensures
        app.attempt(config, script, renews).0 == app,
        app.attempt(config, script, renews).1.is_err(),
{
}

/// The mathematical values of a run of requests.
spec fn views(requests: Seq<Request>) -> Seq<RequestView> {
    requests.map_values(|request: Request| request@)
}

/// Every voice that the requests name is one of `count` installed voices.
spec fn voices_installed(requests: Seq<Request>, count: int) -> bool {
    forall|k: int|
        0 <= k < requests.len() ==> (#[trigger] requests[k] matches Request::SetVoice(position)
            ==> position < count)
}

/// Appends the calls that select the voice for the settings.
fn push_voice(script: &mut Vec<Request>, voices: &Vec<Voice>, config: &Config)
    requires
        voices_installed(old(script)@, voices.len() as int),
    ensures
        views(final(script)@) == views(old(script)@) + voice_script(voices@, config@),
        voices_installed(final(script)@, voices.len() as int),
{
    match resolve_voice(voices, config.voice_name.as_str()) {
        Some(position) => {
            script.push(Request::SetVoice(position));
        },
        None => {},
    }
}

/// Appends the calls that make a fresh session carry the settings.
fn push_settings(script: &mut Vec<Request>, voices: &Vec<Voice>, config: &Config)
    requires
        voices_installed(old(script)@, voices.len() as int),
    ensures
        views(final(script)@) == views(old(script)@) + settings_script(voices@, config@),
        voices_installed(final(script)@, voices.len() as int),
{
    push_voice(script, voices, config);
    let ghost selected = script@;
    script.push(Request::SetRate(config.rate));
    script.push(Request::SetVolume(config.volume));
    assert(views(script@) =~= views(selected) + seq![
        RequestView::SetRate(config@.rate),
        RequestView::SetVolume(config@.volume),
    ]);
}

/// The speech coordinator.
///
/// It owns the settings and the catalog of installed voices, and stands for
/// the one synthesis session: every call that reaches the session is one
/// that it asked for, in the order in which it asked.
pub struct SpeechApp {
    voices: Vec<Voice>,
    config: Config,
    phase: Phase,
    script: Vec<Request>,
    cursor: usize,
    renews: bool,
}

impl View for SpeechApp {
    type V = SpeechAppView;

    closed spec fn view(&self) -> SpeechAppView {
        SpeechAppView {
            voices: self.voices@,
            config: self.config@,
            phase: self.phase,
            pending: views(self.script@.skip(self.cursor as int)),
            renews: self.renews,
        }
    }
}

impl SpeechApp {
    #[verifier::type_invariant]
    spec fn well_formed(&self) -> bool {
        &&& self.cursor <= self.script.len()
        &&& self.config@.in_range()
        &&& voices_installed(self.script@, self.voices.len() as int)
        &&& self.phase == Phase::ShutDown ==> self.cursor == self.script.len()
    }

    /// A coordinator for the given settings and installed voices, with the
    /// first operation begun: the calls that make the session, which the
    /// host has just constructed, carry the settings. The settings are kept
    /// with rate and volume brought into range.
    pub fn build(config: Config, voices: Vec<Voice>) -> (app: SpeechApp)
        ensures
            app@ == (SpeechAppView {
                voices: voices@,
                config: config@.sanitized(),
                phase: Phase::Uninitialized,
                pending: settings_script(voices@, config@.sanitized()),
                renews: true,
            }),
            app@.valid(),
    {
        let config = config.sanitize();
        let mut script: Vec<Request> = Vec::new();
        push_settings(&mut script, &voices, &config);
        assert(script@.skip(0) =~= script@);
        let app = SpeechApp {
            voices,
            config,
            phase: Phase::Uninitialized,
            script,
            cursor: 0,
            renews: true,
        };
        proof {
            app.lemma_valid();
        }
        app
    }

    /// The current settings. Their rate and volume are in range.
    pub fn config(&self) -> (config: &Config)
        ensures
            config@ == self@.config,
            config@.in_range(),
    {
        proof {
            use_type_invariant(self);
        }
        &self.config
    }

    /// The catalog of installed voices.
    pub fn voices(&self) -> (voices: &Vec<Voice>)
        ensures
            voices@ == self@.voices,
    {
        &self.voices
    }

    /// Where the coordinator stands between operations.
    pub fn phase(&self) -> (phase: Phase)
        ensures
            phase == self@.phase,
    {
        self.phase
    }

    /// Why an operation cannot begin now; `None` when one can.
    pub fn refusal(&self) -> (refusal: Option<Refusal>)
        ensures
            refusal == self@.refusal(),
    {
        proof {
            use_type_invariant(self);
        }
        if self.phase == Phase::ShutDown {
            Some(Refusal::ShutDown)
        } else if self.cursor < self.script.len() {
            Some(Refusal::Busy)
        } else {
            None
        }
    }

    /// The installed voice under a display identifier: the first that
    /// carries it. Without an identifier the one in the settings is looked up.
    pub fn get_voice_by_name(&self, voice_name: Option<&str>) -> (voice: Option<&Voice>)
        ensures
            match position_of(self@.voices, self@.wanted(voice_name)) {
                Some(position) => 0 <= position < self@.voices.len() && voice == Some(
                    &self@.voices[position],
                ),
                None => voice.is_none(),
            },
    {
        let name = match voice_name {
            Some(name) => name,
            None => self.config.voice_name.as_str(),
        };
        match find_voice(&self.voices, name) {
            Some(position) => Some(&self.voices[position]),
            None => None,
        }
    }

    /// The display identifier at a position of the catalog; the empty string
    /// for a position past its end.
    pub fn get_voice_name_by_index(&self, index: usize) -> (identifier: String)
        ensures
            identifier@ == identifier_at(self@.voices, index as int),
    {
        if index < self.voices.len() {
            get_voice_name(&self.voices[index])
        } else {
            String::new()
        }
    }

    /// The position in the catalog of the first voice under a display
    /// identifier. Without an identifier the one in the settings is looked up.
    pub fn get_voice_index(&self, voice_name: Option<&str>) -> (index: Option<usize>)
        ensures
            match index {
                Some(position) => position < self@.voices.len() && position_of(
                    self@.voices,
                    self@.wanted(voice_name),
                ) == Some(position as int),
                None => position_of(self@.voices, self@.wanted(voice_name)).is_none(),
            },
    {
        let name = match voice_name {
            Some(name) => name,
            None => self.config.voice_name.as_str(),
        };
        find_voice(&self.voices, name)
    }

    /// Begins an operation on an idle coordinator.
    fn begin(&mut self, script: Vec<Request>, renews: bool)
        requires
            old(self)@.refusal().is_none(),
            voices_installed(script@, old(self)@.voices.len() as int),
        ensures
            final(self)@ == old(self)@.begun(old(self)@.config, views(script@), renews),
            final(self)@.valid(),
    {
        proof {
            use_type_invariant(&*self);
        }
        self.cursor = 0;
        self.script = script;
        self.renews = renews;
        assert(self.script@.skip(0) =~= self.script@);
        proof {
            use_type_invariant(&*self);
            self.lemma_valid();
        }
    }

    /// Selects a voice. A name that is given is first written into the
    /// settings, which are then stored; without one the settings stay as they
    /// are. The voice that the settings lead to is then applied to the
    /// session: the one under the stored identifier, else the first of the
    /// catalog, and no call at all where no voice is installed.
    pub fn set_voice(&mut self, voice_name: Option<&str>) -> (outcome: Result<(), Refusal>)
        ensures
            ({
                let config = ConfigView {
                    voice_name: old(self)@.wanted(voice_name),
                    ..old(self)@.config
                };
                (final(self)@, outcome) == old(self)@.attempt(
                    config,
                    store_script(voice_name.is_some()) + voice_script(old(self)@.voices, config),
                    false,
                )
            }),
            final(self)@.valid(),
    {
        proof {
            use_type_invariant(&*self);
            self.lemma_valid();
        }
        if let Some(refusal) = self.refusal() {
            return Err(refusal);
        }
        let mut script: Vec<Request> = Vec::new();
        if let Some(name) = voice_name {
            self.config.voice_name = String::from_str(name);
            script.push(Request::Store);
        }
        assert(views(script@) =~= store_script(voice_name.is_some()));
        push_voice(&mut script, &self.voices, &self.config);
        self.begin(script, false);
        Ok(())
    }

    /// Selects the voice at a position of the catalog, as a choice in a list
    /// of the voices does: the identifier at that position goes into the
    /// settings. A position past the end stands for the empty identifier,
    /// and so for the first installed voice.
    pub fn set_voice_by_index(&mut self, index: usize) -> (outcome: Result<(), Refusal>)
        ensures
            ({
                let config = ConfigView {
                    voice_name: identifier_at(old(self)@.voices, index as int),
                    ..old(self)@.config
                };
                (final(self)@, outcome) == old(self)@.attempt(
                    config,
                    store_script(true) + voice_script(old(self)@.voices, config),
                    false,
                )
            }),
            final(self)@.valid(),
    {
        let name = self.get_voice_name_by_index(index);
        self.set_voice(Some(name.as_str()))
    }

    /// The position to show as chosen in a list of the voices: that of the
    /// voice under the stored identifier, else the first.
    pub fn current_voice_index(&self) -> (index: usize)
        ensures
            index as int == match position_of(self@.voices, self@.config.voice_name) {
                Some(position) => position,
                None => 0,
            },
    {
        match self.get_voice_index(None) {
            Some(position) => position,
            None => 0,
        }
    }

    /// Sets the rate of speech. A rate that is given is brought into range,
    /// written into the settings and stored; without one the settings stay
    /// as they are. The rate of the settings is then applied to the session.
    pub fn set_rate(&mut self, rate: Option<i32>) -> (outcome: Result<(), Refusal>)
        ensures
            ({
                let config = match rate {
                    Some(rate) => ConfigView {
                        rate: clamped_rate(rate as int),
                        ..old(self)@.config
                    },
                    None => old(self)@.config,
                };
                (final(self)@, outcome) == old(self)@.attempt(
                    config,
                    store_script(rate.is_some()) + seq![RequestView::SetRate(config.rate)],
                    false,
                )
            }),
            final(self)@.valid(),
    {
        proof {
            use_type_invariant(&*self);
            self.lemma_valid();
        }
        if let Some(refusal) = self.refusal() {
            return Err(refusal);
        }
        let mut script: Vec<Request> = Vec::new();
        if let Some(rate) = rate {
            self.config.rate = clamp_rate(rate);
            script.push(Request::Store);
        }
        script.push(Request::SetRate(self.config.rate));
        assert(views(script@) =~= store_script(rate.is_some()) + seq![
            RequestView::SetRate(self.config@.rate),
        ]);
        self.begin(script, false);
        Ok(())
    }

    /// Sets the volume. A volume that is given is brought into range,
    /// written into the settings and stored; without one the settings stay
    /// as they are. The volume of the settings is then applied to the session.
    pub fn set_volume(&mut self, volume: Option<u32>) -> (outcome: Result<(), Refusal>)
        ensures
            ({
                let config = match volume {
                    Some(volume) => ConfigView {
                        volume: clamped_volume(volume as int),
                        ..old(self)@.config
                    },
                    None => old(self)@.config,
                };
                (final(self)@, outcome) == old(self)@.attempt(
                    config,
                    store_script(volume.is_some()) + seq![RequestView::SetVolume(config.volume)],
                    false,
                )
            }),
            final(self)@.valid(),
    {
        proof {
            use_type_invariant(&*self);
            self.lemma_valid();
        }
        if let Some(refusal) = self.refusal() {
            return Err(refusal);
        }
        let mut script: Vec<Request> = Vec::new();
        if let Some(volume) = volume {
            self.config.volume = clamp_volume(volume);
            script.push(Request::Store);
        }
        script.push(Request::SetVolume(self.config.volume));
        assert(views(script@) =~= store_script(volume.is_some()) + seq![
            RequestView::SetVolume(self.config@.volume),
        ]);
        self.begin(script, false);
        Ok(())
    }

    /// Sets whether the window stays hidden at start-up, and stores the
    /// settings. The session is not touched.
    pub fn set_hidden(&mut self, hidden: bool) -> (outcome: Result<(), Refusal>)
        ensures
            (final(self)@, outcome) == old(self)@.attempt(
                ConfigView { hidden, ..old(self)@.config },
                store_script(true),
                false,
            ),
            final(self)@.valid(),
    {
        proof {
            use_type_invariant(&*self);
            self.lemma_valid();
        }
        if let Some(refusal) = self.refusal() {
            return Err(refusal);
        }
        let mut script: Vec<Request> = Vec::new();
        self.config.hidden = hidden;
        script.push(Request::Store);
        assert(views(script@) =~= store_script(true));
        self.begin(script, false);
        Ok(())
    }

    /// Speaks a text in place of whatever is being spoken.
    ///
    /// The session has no way to stop speech, so the session itself is
    /// replaced: the first request discards it and constructs a new one, the
    /// next ones make the new session carry the settings, and the last one
    /// submits the text. When the last one is answered the coordinator is
    /// ready and [`SpeechApp::advance`] reports the identifier of the speech.
    pub fn speak(&mut self, speech: &str) -> (outcome: Result<(), Refusal>)
        ensures
            (final(self)@, outcome) == old(self)@.attempt(
                old(self)@.config,
                speak_script(old(self)@.voices, old(self)@.config, speech@),
                true,
            ),
            final(self)@.valid(),
    {
        proof {
            use_type_invariant(&*self);
            self.lemma_valid();
        }
        if let Some(refusal) = self.refusal() {
            return Err(refusal);
        }
        let mut script: Vec<Request> = Vec::new();
        script.push(Request::Recreate);
        assert(views(script@) =~= seq![RequestView::Recreate]);
        push_settings(&mut script, &self.voices, &self.config);
        let ghost configured = script@;
        script.push(Request::Speak(String::from_str(speech)));
        assert(views(script@) =~= views(configured) + seq![RequestView::Speak(speech@)]);
        self.begin(script, true);
        Ok(())
    }

    /// Tears the coordinator down. An operation under way is given up, and
    /// none is accepted from now on.
    pub fn shut_down(&mut self)
        ensures
            final(self)@ == (SpeechAppView {
                phase: Phase::ShutDown,
                pending: Seq::<RequestView>::empty(),
                ..old(self)@
            }),
            final(self)@.valid(),
    {
        proof {
            use_type_invariant(&*self);
        }
        self.cursor = self.script.len();
        self.phase = Phase::ShutDown;
        assert(views(self.script@.skip(self.cursor as int)) =~= Seq::<RequestView>::empty());
        proof {
            use_type_invariant(&*self);
            self.lemma_valid();
        }
    }

    /// The request that the host is to carry out now; `None` when no
    /// operation is under way.
    pub fn request(&self) -> (request: Option<&Request>)
        ensures
            self@.valid(),
            match request {
                Some(request) => self@.busy() && request@ == self@.pending[0],
                None => !self@.busy(),
            },
            request matches Some(Request::SetVoice(position)) ==> position < self@.voices.len(),
    {
        proof {
            use_type_invariant(self);
            self.lemma_valid();
        }
        if self.cursor < self.script.len() {
            Some(&self.script[self.cursor])
        } else {
            None
        }
    }

    /// Takes the platform's answer to the request in flight.
    ///
    /// `Ok` carries the identifier that the platform gave to submitted
    /// speech; for any other request its number has no meaning. An answer to
    /// a request to store is never a failure. See
    /// [`SpeechAppView::answered`] for the state that results and
    /// [`progress_of`] for what is reported.
    pub fn advance(&mut self, reply: Result<u32, EngineError>) -> (progress: Progress)
        ensures
            final(self)@ == old(self)@.answered(reply.is_ok()),
            final(self)@.valid(),
            progress == progress_of(old(self)@, reply),
    {
        proof {
            use_type_invariant(&*self);
            self.lemma_valid();
        }
        if self.cursor >= self.script.len() {
            return Progress::Idle;
        }
        let ghost before = self.script@.skip(self.cursor as int);
        let storing = matches!(self.script[self.cursor], Request::Store);
        let speaking = matches!(self.script[self.cursor], Request::Speak(_));
        let progress = match reply {
            Err(error) if !storing => {
                self.cursor = self.script.len();
                self.phase = Phase::Faulted;
                assert(views(self.script@.skip(self.cursor as int)) =~= Seq::<
                    RequestView,
                >::empty());
                Progress::Failed(error)
            },
            reply => {
                self.cursor = self.cursor + 1;
                assert(views(self.script@.skip(self.cursor as int)) =~= views(before).drop_first());
                if self.cursor < self.script.len() {
                    Progress::Continue
                } else {
                    if self.renews {
                        self.phase = Phase::Ready;
                    }
                    match reply {
                        Ok(identifier) if speaking => Progress::Finished(Some(identifier)),
                        _ => Progress::Finished(None),
                    }
                }
            },
        };
        proof {
            use_type_invariant(&*self);
            self.lemma_valid();
        }
        progress
    }

    /// The type's invariant, said of the mathematical value.
    proof fn lemma_valid(&self)
        requires
            self.well_formed(),
        ensures
            self@.valid(),
    {
    }
}

} // verus!
