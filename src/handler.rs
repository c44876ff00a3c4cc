//! The decisions of one classify request, between the steps that touch the
//! file system and the classifier program.
//!
//! A [`Session`] is started from the decoded request and then fed the event
//! that each [`Action`] it asks for produced, until it asks to respond. A
//! scratch file that the session created is always released before the
//! response leaves.

use vstd::prelude::*;
use crate::cors::{
    HttpResponse, CORS, allow_credentials, allow_headers, allow_methods, allow_origin, carries_exactly,
    lemma_cors_headers_present, pairs, with_cors,
};
use crate::decode::{ImageRequest, decode_image, find_image_field, standard_base64_decoded, is_image_field};
use crate::error::{ClassifyError, Status, error_status, status_code};
use crate::response::{ClassificationOutcome, render_outcome, settled};

verus! {

/// What a session waits for.
#[derive(PartialEq, Eq, Structural, Clone, Copy, Debug)]
pub enum Stage {
    /// A scratch file to be created for the decoded bytes.
    Creating,
    /// The bytes to be written to the scratch file.
    Writing,
    /// The image file to be checked for presence.
    Checking,
    /// The classifier to run on the image file.
    Running,
    /// The scratch file to be released.
    Releasing,
    /// Nothing: the response has been handed out.
    Done,
}

/// What came of the last action.
pub enum Event {
    ScratchCreated { path: String },
    ScratchFailed,
    Written,
    WriteFailed,
    Checked { exists: bool },
    Ran { outcome: ClassificationOutcome },
    SpawnFailed,
    Released,
}

/// The next thing to do outside.
pub enum Action {
    /// Create an empty scratch file with a unique name.
    CreateScratch,
    /// Write all of `bytes` to the scratch file at `path`.
    WriteScratch { path: String, bytes: Vec<u8> },
    /// Check that the file at `path` exists.
    CheckExists { path: String },
    /// Run the classifier with `path` as its sole argument.
    Run { path: String },
    /// Remove the scratch file at `path`; a failure to do so is ignored.
    ReleaseScratch { path: String },
    /// Send this response; the request is finished.
    Respond { response: HttpResponse },
}

pub struct Session {
    pub stage: Stage,
    /// A scratch file created by this session exists and is to be released.
    pub owns_scratch: bool,
    /// The page ends with a "Draw Again" control (JSON requests).
    pub draw_again: bool,
    /// The path of the image file, once there is one.
    pub path: String,
    /// The decoded bytes, while they wait to be written.
    pub image: Vec<u8>,
    /// The result that awaits the release of the scratch file.
    pub result: Result<String, ClassifyError>,
}

pub open spec fn result_view(r: Result<String, ClassifyError>) -> Result<Seq<char>, ClassifyError> {
    match r {
        Ok(s) => Ok(s@),
        Err(e) => Err(e),
    }
}

/// `r` answers with `res`: the page with status 200, or the error's status
/// with an empty body; the four cross-origin headers are set either way.
pub open spec fn answers(r: HttpResponse, res: Result<Seq<char>, ClassifyError>) -> bool {
    &&& pairs(r.headers@) == with_cors(Seq::empty())
    &&& match res {
        Ok(body) => r.status == 200 && r.body@ == body,
        Err(e) => r.status == status_code(error_status(e)) && r.body@ == Seq::<char>::empty(),
    }
}

/// Builds the response for a settled result.
pub fn respond(res: &Result<String, ClassifyError>) -> (r: HttpResponse)
    ensures
        answers(r, result_view(*res)),
{
    let mut r = match res {
        Ok(body) => HttpResponse::new(Status::Success.code(), body.clone()),
        Err(e) => HttpResponse::new(e.status().code(), String::new()),
    };
    assert(pairs(r.headers@) =~= Seq::empty());
    CORS.on_response(&mut r);
    r
}

impl Session {
    /// Which stages own a scratch file, and what a finished session holds.
    pub open spec fn wf(&self) -> bool {
        &&& (self.stage == Stage::Creating || self.stage == Stage::Done) ==> !self.owns_scratch
        &&& self.stage == Stage::Releasing ==> self.owns_scratch
    }

    /// The event answers the action that the stage asked for.
    pub open spec fn expects(&self, ev: Event) -> bool {
        match self.stage {
            Stage::Creating => ev is ScratchCreated || ev is ScratchFailed,
            Stage::Writing => ev is Written || ev is WriteFailed,
            Stage::Checking => ev is Checked,
            Stage::Running => ev is Ran || ev is SpawnFailed,
            Stage::Releasing => ev is Released,
            Stage::Done => false,
        }
    }

    pub fn accepts(&self, ev: &Event) -> (r: bool)
        ensures
            r == self.expects(*ev),
    {
        match self.stage {
            Stage::Creating => matches!(ev, Event::ScratchCreated { .. } | Event::ScratchFailed),
            Stage::Writing => matches!(ev, Event::Written | Event::WriteFailed),
            Stage::Checking => matches!(ev, Event::Checked { .. }),
            Stage::Running => matches!(ev, Event::Ran { .. } | Event::SpawnFailed),
            Stage::Releasing => matches!(ev, Event::Released),
            Stage::Done => false,
        }
    }

    /// Once the result `res` is settled in `old`: release an owned scratch
    /// file first and keep the result; otherwise respond with it at once.
    pub open spec fn concludes(old: Session, new: Session, a: Action, res: Result<Seq<char>, ClassifyError>) -> bool {
        if old.owns_scratch {
            &&& new.stage == Stage::Releasing
            &&& new.owns_scratch
            &&& new.path@ == old.path@
            &&& new.draw_again == old.draw_again
            &&& result_view(new.result) == res
            &&& a is ReleaseScratch
            &&& a->ReleaseScratch_path@ == old.path@
        } else {
            &&& new.stage == Stage::Done
            &&& !new.owns_scratch
            &&& a is Respond
            &&& answers(a->Respond_response, res)
        }
    }

    fn conclude(&mut self, res: Result<String, ClassifyError>) -> (a: Action)
        ensures
            Session::concludes(*old(self), *final(self), a, result_view(res)),
            final(self).draw_again == old(self).draw_again,
    {
        if self.owns_scratch {
            self.stage = Stage::Releasing;
            self.result = res;
            Action::ReleaseScratch { path: self.path.clone() }
        } else {
            self.stage = Stage::Done;
            Action::Respond { response: respond(&res) }
        }
    }

    /// What starting on `req` gives: the session `s` and its first action `a`.
    pub open spec fn started(req: ImageRequest, s: Session, a: Action) -> bool {
        &&& s.wf()
        &&& !s.owns_scratch
        &&& match req {
            ImageRequest::Base64 { payload } => match standard_base64_decoded(payload@) {
                Some(bytes) => s.stage == Stage::Creating && s.image@ == bytes
                    && s.draw_again && a is CreateScratch,
                None => s.stage == Stage::Done && a is Respond && answers(
                    a->Respond_response,
                    Err(ClassifyError::Decode),
                ),
            },
            ImageRequest::Multipart { fields } => if exists|i: int|
                0 <= i < fields@.len() && is_image_field(#[trigger] fields@[i]) {
                let i = choose|i: int|
                    0 <= i < fields@.len() && is_image_field(#[trigger] fields@[i]) && forall|j: int|
                        0 <= j < i ==> !is_image_field(#[trigger] fields@[j]);
                &&& s.stage == Stage::Checking
                &&& !s.draw_again
                &&& s.path@ == fields@[i].file_path->Some_0@
                &&& a is CheckExists
                &&& a->CheckExists_path@ == s.path@
            } else {
                s.stage == Stage::Done && a is Respond && answers(
                    a->Respond_response,
                    Err(ClassifyError::MissingField),
                )
            },
        }
    }

    /// Starts handling a decoded request. JSON requests decode their base64
    /// text and ask for a scratch file; multipart requests use the file the
    /// form parser stored. Malformed input is answered at once.
    pub fn start(req: &ImageRequest) -> (r: (Session, Action))
        ensures
            Session::started(*req, r.0, r.1),
    {
        match req {
            ImageRequest::Base64 { payload } => {
                let mut s = Session {
                    stage: Stage::Creating,
                    owns_scratch: false,
                    draw_again: true,
                    path: String::new(),
                    image: Vec::new(),
                    result: Err(ClassifyError::Decode),
                };
                match decode_image(payload.as_str()) {
                    Ok(bytes) => {
                        s.image = bytes;
                        (s, Action::CreateScratch)
                    },
                    Err(e) => {
                        s.stage = Stage::Done;
                        (s, Action::Respond { response: respond(&Err(e)) })
                    },
                }
            },
            ImageRequest::Multipart { fields } => {
                let mut s = Session {
                    stage: Stage::Checking,
                    owns_scratch: false,
                    draw_again: false,
                    path: String::new(),
                    image: Vec::new(),
                    result: Err(ClassifyError::MissingField),
                };
                match find_image_field(fields) {
                    Ok(p) => {
                        let a = Action::CheckExists { path: p.clone() };
                        s.path = p;
                        proof {
                            let i = choose|i: int|
                                0 <= i < fields@.len() && is_image_field(#[trigger] fields@[i]) && forall|j: int|
                                    0 <= j < i ==> !is_image_field(#[trigger] fields@[j]);
                            let k = choose|k: int|
                                0 <= k < fields@.len() && is_image_field(#[trigger] fields@[k])
                                    && s.path@ == fields@[k].file_path->Some_0@
                                    && forall|j: int| 0 <= j < k ==> !is_image_field(#[trigger] fields@[j]);
                            assert(!(i < k)) by {
                                if i < k {
                                    assert(!is_image_field(fields@[i]));
                                }
                            }
                            assert(!(k < i)) by {
                                if k < i {
                                    assert(!is_image_field(fields@[k]));
                                }
                            }
                        }
                        (s, a)
                    },
                    Err(e) => {
                        s.stage = Stage::Done;
                        (s, Action::Respond { response: respond(&Err(e)) })
                    },
                }
            },
        }
    }
}

impl Session {
    /// What one step on event `ev` does: from `s0` to `s1`, asking for `a`.
    pub open spec fn stepped(s0: Session, ev: Event, s1: Session, a: Action) -> bool {
        &&& s1.wf()
        &&& s1.draw_again == s0.draw_again
        &&& a is Respond ==> s1.stage == Stage::Done && !s1.owns_scratch
        &&& s0.owns_scratch && !s1.owns_scratch ==> ev is Released
        &&& match ev {
            Event::ScratchCreated { path } => {
                &&& s1.stage == Stage::Writing
                &&& s1.owns_scratch
                &&& s1.path@ == path@
                &&& a is WriteScratch
                &&& a->WriteScratch_path@ == path@
                &&& a->WriteScratch_bytes@ == s0.image@
            },
            Event::ScratchFailed => {
                &&& s1.stage == Stage::Done
                &&& a is Respond
                &&& answers(a->Respond_response, Err(ClassifyError::FileWrite))
            },
            Event::Written => {
                &&& s1.stage == Stage::Checking
                &&& s1.owns_scratch == s0.owns_scratch
                &&& s1.path@ == s0.path@
                &&& a is CheckExists
                &&& a->CheckExists_path@ == s0.path@
            },
            Event::WriteFailed => Session::concludes(
                s0,
                s1,
                a,
                Err(ClassifyError::FileWrite),
            ),
            Event::Checked { exists } => if exists {
                &&& s1.stage == Stage::Running
                &&& s1.owns_scratch == s0.owns_scratch
                &&& s1.path@ == s0.path@
                &&& a is Run
                &&& a->Run_path@ == s0.path@
            } else {
                Session::concludes(s0, s1, a, Err(ClassifyError::FileMissing))
            },
            Event::Ran { outcome } => Session::concludes(
                s0,
                s1,
                a,
                settled(outcome, s0.draw_again),
            ),
            Event::SpawnFailed => Session::concludes(
                s0,
                s1,
                a,
                Err(ClassifyError::Spawn),
            ),
            Event::Released => {
                &&& s1.stage == Stage::Done
                &&& !s1.owns_scratch
                &&& a is Respond
                &&& answers(a->Respond_response, result_view(s0.result))
            },
        }
    }

    /// Takes the event that the last action produced and decides the next
    /// action. A response is only handed out once no scratch file of this
    /// session is left, and a scratch file stops being owned only by being
    /// released.
    pub fn step(&mut self, ev: Event) -> (a: Action)
        requires
            old(self).wf(),
            old(self).expects(ev),
        ensures
            Session::stepped(*old(self), ev, *final(self), a),
    {
        match ev {
            Event::ScratchCreated { path } => {
                let mut bytes: Vec<u8> = Vec::new();
                std::mem::swap(&mut bytes, &mut self.image);
                self.stage = Stage::Writing;
                self.owns_scratch = true;
                self.path = path.clone();
                Action::WriteScratch { path, bytes }
            },
            Event::ScratchFailed => {
                self.stage = Stage::Done;
                Action::Respond { response: respond(&Err(ClassifyError::FileWrite)) }
            },
            Event::Written => {
                self.stage = Stage::Checking;
                Action::CheckExists { path: self.path.clone() }
            },
            Event::WriteFailed => self.conclude(Err(ClassifyError::FileWrite)),
            Event::Checked { exists } => {
                if exists {
                    self.stage = Stage::Running;
                    Action::Run { path: self.path.clone() }
                } else {
                    self.conclude(Err(ClassifyError::FileMissing))
                }
            },
            Event::Ran { outcome } => {
                let res = render_outcome(&outcome, self.draw_again);
                self.conclude(res)
            },
            Event::SpawnFailed => self.conclude(Err(ClassifyError::Spawn)),
            Event::Released => {
                self.stage = Stage::Done;
                self.owns_scratch = false;
                Action::Respond { response: respond(&self.result) }
            },
        }
    }
}

/// Every response carries the four cross-origin headers, each once, with its
/// fixed value: on success and on every error alike.
pub proof fn lemma_responses_carry_cors(r: HttpResponse, res: Result<Seq<char>, ClassifyError>)
    requires
        answers(r, res),
    ensures
        carries_exactly(pairs(r.headers@), allow_origin().0, allow_origin().1),
        carries_exactly(pairs(r.headers@), allow_methods().0, allow_methods().1),
        carries_exactly(pairs(r.headers@), allow_headers().0, allow_headers().1),
        carries_exactly(pairs(r.headers@), allow_credentials().0, allow_credentials().1),
{
    lemma_cors_headers_present(Seq::empty());
}

/// The bytes written to the scratch file of a JSON request are exactly those
/// that its base64 text decodes to.
pub proof fn lemma_scratch_holds_decoded_bytes(
    payload: String,
    s0: Session,
    a0: Action,
    path: String,
    s1: Session,
    a1: Action,
)
    requires
        standard_base64_decoded(payload@) is Some,
        Session::started(ImageRequest::Base64 { payload }, s0, a0),
        Session::stepped(s0, Event::ScratchCreated { path }, s1, a1),
    ensures
        a0 is CreateScratch,
        a1 is WriteScratch,
        a1->WriteScratch_path@ == path@,
        a1->WriteScratch_bytes@ == standard_base64_decoded(payload@)->Some_0,
{
}

/// A classifier run that exits with a failure status ends in a 500 response,
/// whatever it wrote to its outputs: at once, or once the scratch file is
/// released.
pub proof fn lemma_failed_run_is_server_error(
    s0: Session,
    outcome: ClassificationOutcome,
    s1: Session,
    a1: Action,
    s2: Session,
    a2: Action,
)
    requires
        !outcome.success,
        Session::stepped(s0, Event::Ran { outcome }, s1, a1),
    ensures
        a1 is Respond || a1 is ReleaseScratch,
        a1 is Respond ==> a1->Respond_response.status == 500,
        a1 is ReleaseScratch && Session::stepped(s1, Event::Released, s2, a2) ==> a2 is Respond
            && a2->Respond_response.status == 500,
{
}

proof fn lemma_owned_until_released(ss: Seq<Session>, evs: Seq<Event>, acts: Seq<Action>, k: int, j: int)
    requires
        ss.len() == evs.len() + 1,
        acts.len() == evs.len() + 1,
        forall|m: int|
            0 <= m < evs.len() ==> Session::stepped(ss[m], #[trigger] evs[m], ss[m + 1], acts[m + 1]),
        0 <= k < j <= evs.len(),
        ss[k + 1].owns_scratch,
        forall|m: int| k < m < j ==> !(#[trigger] evs[m] is Released),
    ensures
        ss[j].owns_scratch,
    decreases j - k,
{
    if j > k + 1 {
        lemma_owned_until_released(ss, evs, acts, k, j - 1);
        assert(Session::stepped(ss[j - 1], evs[j - 1], ss[j], acts[j]));
    }
}

/// Over any run of a session that ends in a response, every scratch file that
/// was created was released before it: a `Released` event follows each
/// `ScratchCreated` one.
pub proof fn lemma_scratch_released_before_response(
    req: ImageRequest,
    ss: Seq<Session>,
    evs: Seq<Event>,
    acts: Seq<Action>,
)
    requires
        ss.len() == evs.len() + 1,
        acts.len() == evs.len() + 1,
        Session::started(req, ss[0], acts[0]),
        forall|m: int|
            0 <= m < evs.len() ==> Session::stepped(ss[m], #[trigger] evs[m], ss[m + 1], acts[m + 1]),
        acts.last() is Respond,
    ensures
        forall|k: int|
            0 <= k < evs.len() && (#[trigger] evs[k] is ScratchCreated) ==> exists|m: int|
                k < m < evs.len() && #[trigger] evs[m] is Released,
{
    let n = evs.len() as int;
    assert forall|k: int| 0 <= k < n && (#[trigger] evs[k] is ScratchCreated) implies exists|m: int|
        k < m < n && #[trigger] evs[m] is Released by {
        if !exists|m: int| k < m < n && #[trigger] evs[m] is Released {
            assert(Session::stepped(ss[k], evs[k], ss[k + 1], acts[k + 1]));
            lemma_owned_until_released(ss, evs, acts, k, n);
            assert(Session::stepped(ss[n - 1], evs[n - 1], ss[n], acts[n]));
        }
    }
}

} // verus!
