//! Directories that live as long as a container does: each under a name
//! drawn at random, created where no such name is in use, and removed when
//! its handle is closed.

use crate::paths::{join, path_join};
use crate::text::{
    hex_digits, hex_digits_are_digits, hex_digits_are_few, hex_string, is_hex_char, pow16,
};
use vstd::prelude::*;

verus! {

/// `rand::random` at the type `u128`. Nothing is known of the number that
/// comes back.
#[verifier::external_body]
fn random_u128() -> u128 {
    rand::random()
}

/// Whether `id` is the hexadecimal text of a number of 128 bits.
pub open spec fn is_id(id: Seq<char>) -> bool {
    exists|n: u128| id == #[trigger] hex_digits(n as nat)
}

/// An identifier is made of hexadecimal digits in lower case: of one at
/// least, and of thirty-two at most.
pub proof fn identifier_is_short_hex(id: Seq<char>)
    requires
        is_id(id),
    ensures
        1 <= id.len() <= 32,
        forall|i: int| 0 <= i < id.len() ==> is_hex_char(#[trigger] id[i]),
{
    let n = choose|n: u128| id == #[trigger] hex_digits(n as nat);
    hex_digits_are_digits(n as nat);
    assert(pow16(32) == 0x1_0000_0000_0000_0000_0000_0000_0000_0000) by {
        reveal_with_fuel(pow16, 33);
    }
    hex_digits_are_few(n as nat, 32);
}

/// Why a handle could not be closed.
#[derive(Clone, Copy, Debug, PartialEq, Eq, Structural)]
pub enum DirError {
    /// The handle was closed before. This is an error of the class of
    /// invalid input.
    InvalidInput,
}

impl DirError {
    /// What the error says.
    pub fn message(&self) -> (s: &'static str)
        ensures
            s@ == "Closing a ContainerDir which was already closed"@,
    {
        "Closing a ContainerDir which was already closed"
    }
}

/// The handle of a directory that was created for one container.
#[derive(Debug)]
pub struct ContainerDir {
    path: Option<String>,
    destroy_on_drop: bool,
    /// The name of the directory below its root.
    pub id: String,
}

impl ContainerDir {
    /// Where the directory is, as long as the handle is open.
    pub closed spec fn spec_path(&self) -> Option<Seq<char>> {
        match self.path {
            Some(p) => Some(p@),
            None => None,
        }
    }

    /// Whether the directory is to be removed when the handle goes out of
    /// scope.
    pub closed spec fn destroys_on_drop(&self) -> bool {
        self.destroy_on_drop
    }

    /// The name of the directory below its root.
    pub closed spec fn spec_id(&self) -> Seq<char> {
        self.id@
    }

    /// A fresh identifier: the hexadecimal text of a random number.
    pub fn gen_id() -> (id: String)
        ensures
            is_id(id@),
    {
        let n = random_u128();
        hex_string(n)
    }

    /// The handle of the directory `id` under `root_dir`, which the caller
    /// has created. It is open and stays when the handle is dropped.
    pub fn new(root_dir: &str, id: String) -> (dir: ContainerDir)
        ensures
            dir.spec_path() == Some(path_join(root_dir@, id@)),
            !dir.destroys_on_drop(),
            dir.spec_id() == id@,
    {
        let path = join(root_dir, id.as_str());
        ContainerDir { path: Some(path), destroy_on_drop: false, id }
    }

    /// Says whether the directory is to be removed when the handle goes out
    /// of scope.
    pub fn destroy_on_drop(&mut self, flag: bool)
        ensures
            final(self).destroys_on_drop() == flag,
            final(self).spec_path() == old(self).spec_path(),
            final(self).spec_id() == old(self).spec_id(),
    {
        self.destroy_on_drop = flag;
    }

    /// Where the directory is, as long as the handle is open.
    pub fn path(&self) -> (path: Option<&String>)
        ensures
            path is Some <==> self.spec_path() is Some,
            path is Some ==> path->0@ == self.spec_path()->0,
    {
        self.path.as_ref()
    }

    /// Closes the handle and hands out the path of the tree that is to be
    /// removed. A handle can be closed once: after that its path is gone,
    /// and closing it again is an error.
    pub fn close(&mut self) -> (r: Result<String, DirError>)
        ensures
            old(self).spec_path() is Some <==> r is Ok,
            r is Ok ==> r->Ok_0@ == old(self).spec_path()->0,
            r is Err ==> r->Err_0 == DirError::InvalidInput,
            final(self).spec_path() is None,
            final(self).destroys_on_drop() == old(self).destroys_on_drop(),
            final(self).spec_id() == old(self).spec_id(),
    {
        match self.path.take() {
            Some(path) => Ok(path),
            None => Err(DirError::InvalidInput),
        }
    }

    /// What is to be removed when the handle goes out of scope: the path of
    /// an open handle that was told to destroy on drop. The removal is a
    /// best effort, and the handle stays as it is.
    pub fn drop_path(&self) -> (path: Option<&String>)
        ensures
            path is Some <==> self.destroys_on_drop() && self.spec_path() is Some,
            path is Some ==> path->0@ == self.spec_path()->0,
    {
        if self.destroy_on_drop {
            self.path.as_ref()
        } else {
            None
        }
    }
}

/// How far the creation of a directory has come.
#[derive(Clone, Copy, Debug, PartialEq, Eq, Structural)]
pub enum DirPhase {
    /// A name is proposed, and it is not known whether it is in use.
    Probing,
    /// The proposed name is free, and the directory is being created.
    Creating,
    /// The directory is there.
    Created,
    /// The directory could not be created.
    Failed,
}

/// What the file system answered.
#[derive(Clone, Copy, Debug, PartialEq, Eq, Structural)]
pub enum DirEvent {
    /// Something exists at the path that was probed.
    Present,
    /// Nothing exists at the path that was probed.
    Absent,
    /// The directory was created, with the directories above it.
    Created,
    /// The directory could not be created; the system gave this code.
    Failed(i64),
}

/// What is asked of the file system.
#[derive(Debug, PartialEq, Eq)]
pub enum DirTask<'a> {
    /// Is there anything at this path?
    Probe(&'a String),
    /// Create the directory at this path, and the directories above it.
    Create(&'a String),
    /// Nothing: the creation has come to its end.
    Nothing,
}

/// A task as the contracts see it.
pub enum DirTaskView {
    Probe(Seq<char>),
    Create(Seq<char>),
    Nothing,
}

impl<'a> View for DirTask<'a> {
    type V = DirTaskView;

    open spec fn view(&self) -> DirTaskView {
        match *self {
            DirTask::Probe(p) => DirTaskView::Probe(p@),
            DirTask::Create(p) => DirTaskView::Create(p@),
            DirTask::Nothing => DirTaskView::Nothing,
        }
    }
}

/// A creation as the contracts see it.
pub struct CreationView {
    pub root: Seq<char>,
    pub id: Seq<char>,
    pub phase: DirPhase,
    /// The code of the failure, in the phase `Failed`.
    pub code: i64,
}

impl CreationView {
    /// The path of the proposed directory.
    pub open spec fn path(self) -> Seq<char> {
        path_join(self.root, self.id)
    }

    /// What is asked of the file system.
    pub open spec fn task(self) -> DirTaskView {
        match self.phase {
            DirPhase::Probing => DirTaskView::Probe(self.path()),
            DirPhase::Creating => DirTaskView::Create(self.path()),
            _ => DirTaskView::Nothing,
        }
    }

    /// The creation after `event`, where `number` is the next random number.
    ///
    /// A name that is in use is given up for the name of `number`. A name
    /// that is free is kept, and its directory is created. An event that is
    /// no answer to the task in turn changes nothing.
    pub open spec fn step(self, event: DirEvent, number: u128) -> CreationView {
        match (self.phase, event) {
            (DirPhase::Probing, DirEvent::Present) => CreationView {
                id: hex_digits(number as nat),
                ..self
            },
            (DirPhase::Probing, DirEvent::Absent) => CreationView {
                phase: DirPhase::Creating,
                ..self
            },
            (DirPhase::Creating, DirEvent::Created) => CreationView {
                phase: DirPhase::Created,
                ..self
            },
            (DirPhase::Creating, DirEvent::Failed(code)) => CreationView {
                phase: DirPhase::Failed,
                code,
                ..self
            },
            _ => self,
        }
    }
}

/// The start of a creation under `root` with the random number `number`.
pub open spec fn proposal(root: Seq<char>, number: u128) -> CreationView {
    CreationView { root, id: hex_digits(number as nat), phase: DirPhase::Probing, code: 0 }
}

/// A directory is created only under a name that was probed and found
/// free, and that name is kept from then on; a name that was found in use
/// is never created.
pub proof fn created_only_where_absent(s: CreationView, event: DirEvent, number: u128)
    ensures
        s.step(event, number).phase == DirPhase::Creating && s.phase != DirPhase::Creating ==> s.phase
            == DirPhase::Probing && event == DirEvent::Absent && s.step(event, number).id == s.id,
        s.phase == DirPhase::Probing && event == DirEvent::Present ==> s.step(event, number).phase
            == DirPhase::Probing && s.step(event, number).id == hex_digits(number as nat),
        s.phase != DirPhase::Probing ==> s.step(event, number).id == s.id,
        s.step(event, number).phase == DirPhase::Created && s.phase != DirPhase::Created ==> s.phase
            == DirPhase::Creating && event == DirEvent::Created,
        s.step(event, number).root == s.root,
{
}

/// The creation after each of `answers` was taken, in order: each is an
/// event with the random number that was at hand when it came.
pub open spec fn after_answers(c: CreationView, answers: Seq<(DirEvent, u128)>) -> CreationView
    decreases answers.len(),
{
    if answers.len() == 0 {
        c
    } else {
        after_answers(c, answers.drop_last()).step(answers.last().0, answers.last().1)
    }
}

/// Whether no probe in the course of `answers` was answered with `Absent`
/// for a path that is in use, where exactly the paths of `existing` are in
/// use.
pub open spec fn honest(
    existing: Set<Seq<char>>,
    c: CreationView,
    answers: Seq<(DirEvent, u128)>,
) -> bool {
    forall|k: int|
        0 <= k < answers.len() && (#[trigger] after_answers(c, answers.take(k))).phase
            == DirPhase::Probing && existing.contains(after_answers(c, answers.take(k)).path())
            ==> answers[k].0 != DirEvent::Absent
}

/// No directory is created where one is: whatever numbers are drawn and
/// however often a name is found in use, a creation that has left the
/// probing behind it, its probes answered honestly, stands at a path that
/// was not in use. So its identifier is none of those in use under its
/// root.
pub proof fn no_collision(
    existing: Set<Seq<char>>,
    root: Seq<char>,
    number: u128,
    answers: Seq<(DirEvent, u128)>,
)
    requires
        honest(existing, proposal(root, number), answers),
    ensures
        after_answers(proposal(root, number), answers).root == root,
        after_answers(proposal(root, number), answers).phase != DirPhase::Probing
            ==> !existing.contains(after_answers(proposal(root, number), answers).path()),
        after_answers(proposal(root, number), answers).phase != DirPhase::Probing ==> forall|
            id: Seq<char>,
        |
            existing.contains(path_join(root, id)) ==> after_answers(
                proposal(root, number),
                answers,
            ).id != id,
    decreases answers.len(),
{
    let start = proposal(root, number);
    if answers.len() > 0 {
        let front = answers.drop_last();
        assert forall|k: int|
            0 <= k < front.len() && (#[trigger] after_answers(start, front.take(k))).phase
                == DirPhase::Probing && existing.contains(
                after_answers(start, front.take(k)).path(),
            ) implies front[k].0 != DirEvent::Absent by {
            assert(front.take(k) =~= answers.take(k));
        }
        no_collision(existing, root, number, front);
        assert(answers.take(answers.len() - 1) =~= front);
    }
}

/// The creation of one directory: a name is proposed and probed until one is
/// free, and then the directory is created.
#[derive(Debug)]
pub struct DirCreation {
    root: String,
    id: String,
    path: String,
    phase: DirPhase,
    code: i64,
}

impl View for DirCreation {
    type V = CreationView;

    closed spec fn view(&self) -> CreationView {
        CreationView { root: self.root@, id: self.id@, phase: self.phase, code: self.code }
    }
}

impl DirCreation {
    #[verifier::type_invariant]
    spec fn well_formed(self) -> bool {
        self.path@ == path_join(self.root@, self.id@)
    }

    /// Starts the creation of a directory under `root_dir` with the random
    /// number `number`.
    pub fn propose(root_dir: &str, number: u128) -> (c: DirCreation)
        ensures
            c@ == proposal(root_dir@, number),
    {
        let id = hex_string(number);
        let path = join(root_dir, id.as_str());
        DirCreation { root: root_dir.to_owned(), id, path, phase: DirPhase::Probing, code: 0 }
    }

    /// Starts the creation of a directory under `root_dir`, with a name drawn
    /// at random.
    pub fn begin(root_dir: &str) -> (c: DirCreation)
        ensures
            exists|number: u128| c@ == #[trigger] proposal(root_dir@, number),
    {
        let number = random_u128();
        let c = DirCreation::propose(root_dir, number);
        assert(c@ == proposal(root_dir@, number));
        c
    }

    /// How far the creation has come.
    pub fn phase(&self) -> (phase: DirPhase)
        ensures
            phase == self@.phase,
    {
        self.phase
    }

    /// The name that is proposed, or, once it was found free, in use.
    pub fn id(&self) -> (id: &String)
        ensures
            id@ == self@.id,
    {
        &self.id
    }

    /// The code of the failure, where the creation has failed.
    pub fn failure(&self) -> (code: Option<i64>)
        ensures
            code == if self@.phase == DirPhase::Failed {
                Some(self@.code)
            } else {
                None
            },
    {
        if self.phase == DirPhase::Failed {
            Some(self.code)
        } else {
            None
        }
    }

    /// What is to be asked of the file system now.
    pub fn task(&self) -> (task: DirTask<'_>)
        ensures
            task@ == self@.task(),
    {
        proof {
            use_type_invariant(self);
        }
        match self.phase {
            DirPhase::Probing => DirTask::Probe(&self.path),
            DirPhase::Creating => DirTask::Create(&self.path),
            _ => DirTask::Nothing,
        }
    }

    /// Takes the answer of the file system; `number` is the random number
    /// that names the next proposal, should the name in turn be in use.
    pub fn advance_with(&mut self, event: DirEvent, number: u128)
        ensures
            final(self)@ == old(self)@.step(event, number),
    {
        proof {
            use_type_invariant(&*self);
        }
        match (self.phase, event) {
            (DirPhase::Probing, DirEvent::Present) => {
                let id = hex_string(number);
                let path = join(self.root.as_str(), id.as_str());
                *self = DirCreation {
                    root: self.root.clone(),
                    id,
                    path,
                    phase: DirPhase::Probing,
                    code: self.code,
                };
            },
            (DirPhase::Probing, DirEvent::Absent) => {
                self.phase = DirPhase::Creating;
            },
            (DirPhase::Creating, DirEvent::Created) => {
                self.phase = DirPhase::Created;
            },
            (DirPhase::Creating, DirEvent::Failed(code)) => {
                self.phase = DirPhase::Failed;
                self.code = code;
            },
            _ => {},
        }
    }

    /// Takes the answer of the file system. Where the name in turn is in
    /// use, the next one is drawn at random.
    pub fn advance(&mut self, event: DirEvent)
        ensures
            exists|number: u128| final(self)@ == #[trigger] old(self)@.step(event, number),
    {
        let number = random_u128();
        self.advance_with(event, number);
    }

    /// The handle of the directory, once it is there.
    pub fn finish(self) -> (dir: Option<ContainerDir>)
        ensures
            dir is Some <==> self@.phase == DirPhase::Created,
            dir is Some ==> dir->0.spec_path() == Some(self@.path()) && dir->0.spec_id() == self@.id
                && !dir->0.destroys_on_drop(),
    {
        if self.phase == DirPhase::Created {
            let root = self.root;
            Some(ContainerDir::new(root.as_str(), self.id))
        } else {
            None
        }
    }
}

} // verus!
