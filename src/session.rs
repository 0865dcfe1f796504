use vstd::prelude::*;

use crate::identity::{strings, User};

verus! {

/// The git invocations of one commit, in order. Setting the identity is
/// followed by the commit and then, whatever the commit reported, by
/// removing the identity again.
#[derive(PartialEq, Eq, Structural, Clone, Copy)]
pub enum Stage {
    SetName,
    SetEmail,
    Commit,
    Unset,
    Done,
}

/// The stage a commit starts at.
pub open spec fn first_stage(has_identity: bool) -> Stage {
    if has_identity {
        Stage::SetName
    } else {
        Stage::Commit
    }
}

/// The stage after `s` once its invocation has reported `succeeded`; the
/// report never changes the course.
pub open spec fn next_stage(s: Stage, has_identity: bool, succeeded: bool) -> Stage {
    match s {
        Stage::SetName => Stage::SetEmail,
        Stage::SetEmail => Stage::Commit,
        Stage::Commit => if has_identity {
            Stage::Unset
        } else {
            Stage::Done
        },
        Stage::Unset => Stage::Done,
        Stage::Done => Stage::Done,
    }
}

/// The stages run, from `s`, for a sequence of reported outcomes: one
/// stage per outcome until `Done`.
pub open spec fn stages_run(s: Stage, has_identity: bool, outcomes: Seq<bool>) -> Seq<Stage>
    decreases outcomes.len(),
{
    if s == Stage::Done || outcomes.len() == 0 {
        Seq::empty()
    } else {
        seq![s] + stages_run(next_stage(s, has_identity, outcomes[0]), has_identity, outcomes.drop_first())
    }
}

/// With an identity set, whatever each invocation reports (a failed commit
/// included), the identity is removed exactly once, right after the commit,
/// and the run then ends.
pub proof fn lemma_identity_always_unset(outcomes: Seq<bool>)
    requires
        outcomes.len() >= 4,
    ensures
        stages_run(first_stage(true), true, outcomes) == seq![
            Stage::SetName,
            Stage::SetEmail,
            Stage::Commit,
            Stage::Unset,
        ],
        stages_run(first_stage(true), true, outcomes).filter(|s: Stage| s == Stage::Unset).len() == 1,
{
    let o1 = outcomes.drop_first();
    let o2 = o1.drop_first();
    let o3 = o2.drop_first();
    let o4 = o3.drop_first();
    assert(stages_run(Stage::Done, true, o4) == Seq::<Stage>::empty());
    assert(stages_run(Stage::Unset, true, o3) =~= seq![Stage::Unset]);
    assert(stages_run(Stage::Commit, true, o2) =~= seq![Stage::Commit, Stage::Unset]);
    assert(stages_run(Stage::SetEmail, true, o1) =~= seq![Stage::SetEmail, Stage::Commit, Stage::Unset]);
    let run = stages_run(first_stage(true), true, outcomes);
    assert(run =~= seq![Stage::SetName, Stage::SetEmail, Stage::Commit, Stage::Unset]);
    reveal_with_fuel(Seq::filter, 5);
    assert(run.drop_last() =~= seq![Stage::SetName, Stage::SetEmail, Stage::Commit]);
    assert(run.drop_last().drop_last() =~= seq![Stage::SetName, Stage::SetEmail]);
    assert(run.drop_last().drop_last().drop_last() =~= seq![Stage::SetName]);
    assert(run.drop_last().drop_last().drop_last().drop_last() =~= Seq::<Stage>::empty());
}

/// The arguments of the commit invocation: colour kept on, the user's own
/// git options in order, then the message.
pub open spec fn commit_args_spec(options: Seq<Seq<char>>, message: Seq<char>) -> Seq<Seq<char>> {
    seq!["-c"@, "color.status=always"@, "commit"@] + options + seq!["-m"@, message]
}

/// The arguments of the invocation at stage `s`, if any, for the identity
/// `name <email>` and the commit's own arguments.
pub open spec fn invocation(s: Stage, name: Seq<char>, email: Seq<char>, commit: Seq<Seq<char>>) -> Option<Seq<Seq<char>>> {
    match s {
        Stage::SetName => Some(seq!["config"@, "user.name"@, name]),
        Stage::SetEmail => Some(seq!["config"@, "user.email"@, email]),
        Stage::Commit => Some(commit),
        Stage::Unset => Some(seq!["config"@, "--remove-section"@, "user"@]),
        Stage::Done => None,
    }
}

fn push_string(v: &mut Vec<String>, s: &String)
    ensures
        strings(final(v)@) == strings(old(v)@).push(s@),
{
    let ghost before = v@;
    v.push(s.clone());
    assert(strings(v@) =~= strings(before).push(s@));
}

fn push_str(v: &mut Vec<String>, s: &str)
    ensures
        strings(final(v)@) == strings(old(v)@).push(s@),
{
    let ghost before = v@;
    v.push(String::from_str(s));
    assert(strings(v@) =~= strings(before).push(s@));
}

/// The arguments of the commit invocation.
pub fn commit_args(git_options: &Vec<String>, message: &String) -> (r: Vec<String>)
    ensures
        strings(r@) == commit_args_spec(strings(git_options@), message@),
{
    let mut r: Vec<String> = Vec::new();
    push_str(&mut r, "-c");
    push_str(&mut r, "color.status=always");
    push_str(&mut r, "commit");
    let ghost head = strings(r@);
    let mut i: usize = 0;
    while i < git_options.len()
        invariant
            i <= git_options@.len(),
            strings(r@) == head + strings(git_options@).subrange(0, i as int),
        decreases git_options@.len() - i,
    {
        let ghost before = r@;
        r.push(git_options[i].clone());
        assert(strings(r@) =~= strings(before).push(git_options@[i as int]@));
        assert(strings(git_options@).subrange(0, i + 1) =~= strings(git_options@).subrange(0, i as int).push(git_options@[i as int]@));
        i = i + 1;
    }
    assert(strings(git_options@).subrange(0, git_options@.len() as int) =~= strings(git_options@));
    push_str(&mut r, "-m");
    let ghost before = r@;
    r.push(message.clone());
    assert(strings(r@) =~= strings(before).push(message@));
    assert(strings(r@) =~= commit_args_spec(strings(git_options@), message@));
    r
}

/// One commit run: the identity to set, if any, and where the run stands.
pub struct CommitSession {
    pub name: Option<String>,
    pub email: Option<String>,
    pub args: Vec<String>,
    pub stage: Stage,
}

impl CommitSession {
    /// Whether this run sets an identity around its commit.
    pub open spec fn has_identity(&self) -> bool {
        self.name is Some
    }

    /// The name set before the commit, empty without an identity.
    pub open spec fn name_view(&self) -> Seq<char> {
        match self.name {
            Some(n) => n@,
            None => Seq::empty(),
        }
    }

    /// The email set before the commit, empty without an identity.
    pub open spec fn email_view(&self) -> Seq<char> {
        match self.email {
            Some(e) => e@,
            None => Seq::empty(),
        }
    }

    /// The invocation due at the current stage.
    pub open spec fn due(&self) -> Option<Seq<Seq<char>>> {
        invocation(self.stage, self.name_view(), self.email_view(), strings(self.args@))
    }

    /// A name and an email are set together or not at all.
    pub open spec fn wf(&self) -> bool {
        self.name is Some == self.email is Some
    }

    /// A run that commits with `message` and the user's git options, under
    /// `user`'s identity where one was resolved.
    pub fn new(user: Option<&User>, git_options: &Vec<String>, message: &String) -> (r: CommitSession)
        ensures
            r.wf(),
            r.has_identity() == user is Some,
            user matches Some(u) ==> r.name_view() == u@.name && r.email_view() == u@.email,
            r.stage == first_stage(user is Some),
            strings(r.args@) == commit_args_spec(strings(git_options@), message@),
    {
        let args = commit_args(git_options, message);
        match user {
            Some(u) => CommitSession {
                name: Some(u.name.clone()),
                email: Some(u.email.clone()),
                args,
                stage: Stage::SetName,
            },
            None => CommitSession { name: None, email: None, args, stage: Stage::Commit },
        }
    }

    /// The arguments of the git invocation due now, or `None` once the run
    /// is over.
    pub fn invocation(&self) -> (r: Option<Vec<String>>)
        ensures
            match r {
                Some(v) => self.due() == Some(strings(v@)),
                None => self.due() is None,
            },
    {
        match self.stage {
            Stage::SetName => {
                let mut v: Vec<String> = Vec::new();
                push_str(&mut v, "config");
                push_str(&mut v, "user.name");
                let value = match &self.name {
                    Some(x) => x.clone(),
                    None => String::new(),
                };
                assert(value@ == self.name_view());
                push_string(&mut v, &value);
                assert(strings(v@) =~= seq!["config"@, "user.name"@, self.name_view()]);
                Some(v)
            },
            Stage::SetEmail => {
                let mut v: Vec<String> = Vec::new();
                push_str(&mut v, "config");
                push_str(&mut v, "user.email");
                let value = match &self.email {
                    Some(x) => x.clone(),
                    None => String::new(),
                };
                assert(value@ == self.email_view());
                push_string(&mut v, &value);
                assert(strings(v@) =~= seq!["config"@, "user.email"@, self.email_view()]);
                Some(v)
            },
            Stage::Commit => {
                let mut v: Vec<String> = Vec::new();
                let mut i: usize = 0;
                while i < self.args.len()
                    invariant
                        i <= self.args@.len(),
                        strings(v@) =~= strings(self.args@).subrange(0, i as int),
                    decreases self.args@.len() - i,
                {
                    push_string(&mut v, &self.args[i]);
                    i = i + 1;
                }
                assert(strings(self.args@).subrange(0, self.args@.len() as int) =~= strings(self.args@));
                Some(v)
            },
            Stage::Unset => {
                let mut v: Vec<String> = Vec::new();
                push_str(&mut v, "config");
                push_str(&mut v, "--remove-section");
                push_str(&mut v, "user");
                assert(strings(v@) =~= seq!["config"@, "--remove-section"@, "user"@]);
                Some(v)
            },
            Stage::Done => None,
        }
    }

    /// Moves on once the current invocation has reported `succeeded`.
    pub fn advance(&mut self, succeeded: bool)
        ensures
            final(self).stage == next_stage(old(self).stage, old(self).has_identity(), succeeded),
            final(self).name == old(self).name,
            final(self).email == old(self).email,
            final(self).args == old(self).args,
    {
        self.stage = match self.stage {
            Stage::SetName => Stage::SetEmail,
            Stage::SetEmail => Stage::Commit,
            Stage::Commit => if self.name.is_some() {
                Stage::Unset
            } else {
                Stage::Done
            },
            Stage::Unset => Stage::Done,
            Stage::Done => Stage::Done,
        };
    }
}

} // verus!
