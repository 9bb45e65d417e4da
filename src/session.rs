use vstd::prelude::*;

use crate::client::{Request, Resource, authorization_spec, endpoint_spec};
use crate::error::{Error, StringError};
use crate::league::{Lockfile, LolPerksPerkPage, LolPerksPerkUIPerk};
use crate::runes::{RuneIndex, rune_name_spec};

verus! {

/// Where the user stands in locating the client: the directory chosen, and
/// the descriptor read from its lockfile.
pub struct LeagueStatus {
    pub league_path: Option<String>,
    pub lockfile: Option<Lockfile>,
}

impl LeagueStatus {
    pub fn new() -> (r: Self)
        ensures
            r.league_path is None,
            r.lockfile is None,
    {
        Self { league_path: None, lockfile: None }
    }

    /// Meant to tell whether the chosen directory is a client's directory.
    /// No such check is defined yet: the answer is a hint that a descriptor
    /// was read, and nothing about it is promised.
    pub fn dir_ok(&self) -> bool {
        self.lockfile.is_some()
    }

    /// Takes the text of the lockfile of the chosen directory. Without a
    /// chosen directory, or where the text does not read, nothing changes.
    pub fn read_lockfile(&mut self, contents: &str) -> (r: Result<(), Error>)
        ensures
            final(self).league_path == old(self).league_path,
            old(self).league_path is None ==> {
                &&& r matches Err(Error::Simple(e)) && e.desc == "No path provided"
                &&& final(self).lockfile == old(self).lockfile
            },
            old(self).league_path is Some ==> exists|p: Result<Lockfile, Error>|
                {
                    &&& #[trigger] Lockfile::read_outcome(p, contents@)
                    &&& match p {
                        Ok(l) => r is Ok && final(self).lockfile == Some(l),
                        Err(e) => r == Err::<(), Error>(e) && final(self).lockfile
                            == old(self).lockfile,
                    }
                },
    {
        if self.league_path.is_none() {
            return Err(Error::Simple(StringError::new("No path provided")));
        }
        let parsed = Lockfile::parse(contents);
        let ghost p = parsed;
        match parsed {
            Ok(l) => {
                self.lockfile = Some(l);
                assert(Lockfile::read_outcome(p, contents@));
                Ok(())
            },
            Err(e) => {
                assert(Lockfile::read_outcome(p, contents@));
                Err(e)
            },
        }
    }
}

/// A line of the rune page list.
pub struct RunepageOverview {
    pub name: String,
}

impl RunepageOverview {
    pub fn new(name: String) -> (r: Self)
        ensures
            r.name == name,
    {
        RunepageOverview { name }
    }

    pub fn from_page(page: &LolPerksPerkPage) -> (r: Self)
        ensures
            r.name@ == page.name@,
    {
        RunepageOverview::new(page.name.clone())
    }
}

/// The screen on show.
pub enum Screen {
    LocateLeagueDir,
    RunepageDisplay { overviews: Vec<RunepageOverview> },
    RunepageModify { id: usize },
    Normal,
}

/// What the user did, or what came back from outside work.
pub enum Message {
    DirLocated,
    PickFolder,
    /// The folder dialog closed, with the chosen directory.
    PickFolderDone(Result<String, Error>),
    /// The lockfile of the chosen directory was read.
    LockfileRead(Result<String, Error>),
    GoToRunes,
    /// The perk list came back, decoded.
    GetRunesDone(Result<Vec<LolPerksPerkUIPerk>, Error>),
    /// The rune pages came back, decoded.
    GetRunepagesDone(Result<Vec<LolPerksPerkPage>, Error>),
    /// A rune page of the list was chosen for editing.
    RunepageOverviewMessage(usize),
}

/// Outside work that the session asks for.
pub enum Command {
    /// Nothing to do.
    Idle,
    PickFolder,
    /// Read the lockfile in this directory.
    ReadLockfile(String),
    Fetch(Request),
}

/// What one message leads to: the work to do, and an error to show, if any.
pub struct Step {
    pub command: Command,
    pub report: Option<Error>,
}

impl Request {
    pub open spec fn is_for(&self, lockfile: Lockfile, resource: Resource) -> bool {
        &&& self.url@ == endpoint_spec(lockfile.port as nat, resource.path_spec())
        &&& self.authorization@ == authorization_spec(lockfile.password@)
    }
}

impl Command {
    /// A fetch of `resource` where a descriptor is known, nothing otherwise.
    pub open spec fn fetches(&self, lockfile: Option<Lockfile>, resource: Resource) -> bool {
        match lockfile {
            Some(l) => self matches Command::Fetch(q) && q.is_for(l, resource),
            None => self is Idle,
        }
    }
}

/// The state of one session of the rune page browser.
pub struct Runomicon {
    pub screen: Screen,
    pub league_status: LeagueStatus,
    pub runes_by_id: Option<RuneIndex>,
    pub runepages: Option<Vec<LolPerksPerkPage>>,
}

impl Runomicon {
    pub fn new() -> (r: Self)
        ensures
            r.screen is LocateLeagueDir,
            r.league_status.league_path is None,
            r.league_status.lockfile is None,
            r.runes_by_id is None,
            r.runepages is None,
    {
        Runomicon {
            screen: Screen::LocateLeagueDir,
            league_status: LeagueStatus::new(),
            runes_by_id: None,
            runepages: None,
        }
    }

    pub fn title(&self) -> (r: String)
        ensures
            r@ == "runomicon"@,
    {
        String::from_str("runomicon")
    }

    /// Takes one message and says what to do next.
    pub fn update(&mut self, message: Message) -> (r: Step)
        ensures
            match message {
                Message::DirLocated => {
                    &&& final(self).screen is Normal
                    &&& final(self).league_status == old(self).league_status
                    &&& final(self).runes_by_id == old(self).runes_by_id
                    &&& final(self).runepages == old(self).runepages
                    &&& r.command is Idle
                    &&& r.report is None
                },
                Message::PickFolder => {
                    &&& *final(self) == *old(self)
                    &&& r.command is PickFolder
                    &&& r.report is None
                },
                Message::PickFolderDone(Ok(path)) => {
                    &&& final(self).screen == old(self).screen
                    &&& final(self).league_status.league_path == Some(path)
                    &&& final(self).league_status.lockfile == old(self).league_status.lockfile
                    &&& final(self).runes_by_id == old(self).runes_by_id
                    &&& final(self).runepages == old(self).runepages
                    &&& r.command matches Command::ReadLockfile(p) && p@ == path@
                    &&& r.report is None
                },
                Message::PickFolderDone(Err(e)) | Message::LockfileRead(Err(e)) => {
                    &&& *final(self) == *old(self)
                    &&& r.command is Idle
                    &&& r.report == Some(e)
                },
                Message::LockfileRead(Ok(text)) => {
                    &&& final(self).screen == old(self).screen
                    &&& final(self).league_status.league_path == old(self).league_status.league_path
                    &&& final(self).runes_by_id == old(self).runes_by_id
                    &&& final(self).runepages == old(self).runepages
                    &&& r.command is Idle
                    &&& old(self).league_status.league_path is None ==> {
                        &&& r.report matches Some(Error::Simple(e)) && e.desc == "No path provided"
                        &&& final(self).league_status.lockfile == old(self).league_status.lockfile
                    }
                    &&& old(self).league_status.league_path is Some ==> exists|
                        p: Result<Lockfile, Error>,
                    |
                        {
                            &&& #[trigger] Lockfile::read_outcome(p, text@)
                            &&& match p {
                                Ok(l) => r.report is None && final(self).league_status.lockfile
                                    == Some(l),
                                Err(e) => r.report == Some(e)
                                    && final(self).league_status.lockfile
                                    == old(self).league_status.lockfile,
                            }
                        }
                },
                Message::GoToRunes => {
                    &&& final(self).league_status == old(self).league_status
                    &&& final(self).runes_by_id == old(self).runes_by_id
                    &&& final(self).runepages == old(self).runepages
                    &&& r.command.fetches(old(self).league_status.lockfile, Resource::Perks)
                    &&& r.report is None
                    &&& old(self).league_status.lockfile is Some ==> (final(self).screen matches
                        Screen::RunepageDisplay { overviews } && overviews@.len() == 0)
                    &&& old(self).league_status.lockfile is None ==> final(self).screen
                        == old(self).screen
                },
                Message::GetRunesDone(result) => {
                    &&& final(self).screen == old(self).screen
                    &&& final(self).league_status == old(self).league_status
                    &&& final(self).runepages == old(self).runepages
                    &&& r.command.fetches(old(self).league_status.lockfile, Resource::Pages)
                    &&& match result {
                        Ok(runes) => {
                            &&& r.report is None
                            &&& final(self).runes_by_id matches Some(index) && index.wf() && index@
                                == runes@
                        },
                        Err(e) => {
                            &&& r.report == Some(e)
                            &&& final(self).runes_by_id == old(self).runes_by_id
                        },
                    }
                },
                Message::GetRunepagesDone(Ok(pages)) => {
                    &&& final(self).league_status == old(self).league_status
                    &&& final(self).runes_by_id == old(self).runes_by_id
                    &&& final(self).runepages == Some(pages)
                    &&& final(self).screen matches Screen::RunepageDisplay { overviews } && {
                        &&& overviews@.len() == pages@.len()
                        &&& forall|k: int|
                            0 <= k < pages@.len() ==> (#[trigger] overviews@[k]).name@
                                == pages@[k].name@
                    }
                    &&& r.command is Idle
                    &&& r.report is None
                },
                Message::GetRunepagesDone(Err(e)) => {
                    &&& *final(self) == *old(self)
                    &&& r.command is Idle
                    &&& r.report == Some(e)
                },
                Message::RunepageOverviewMessage(index) => {
                    &&& final(self).screen == (Screen::RunepageModify { id: index })
                    &&& final(self).league_status == old(self).league_status
                    &&& final(self).runes_by_id == old(self).runes_by_id
                    &&& final(self).runepages == old(self).runepages
                    &&& r.command is Idle
                    &&& r.report is None
                },
            },
    {
        match message {
            Message::DirLocated => {
                self.screen = Screen::Normal;
                Step { command: Command::Idle, report: None }
            },
            Message::PickFolder => Step { command: Command::PickFolder, report: None },
            Message::PickFolderDone(Ok(path)) => {
                let dir = path.clone();
                self.league_status.league_path = Some(path);
                Step { command: Command::ReadLockfile(dir), report: None }
            },
            Message::PickFolderDone(Err(e)) => Step { command: Command::Idle, report: Some(e) },
            Message::LockfileRead(Ok(text)) => {
                let report = match self.league_status.read_lockfile(text.as_str()) {
                    Ok(()) => None,
                    Err(e) => Some(e),
                };
                Step { command: Command::Idle, report }
            },
            Message::LockfileRead(Err(e)) => Step { command: Command::Idle, report: Some(e) },
            Message::GoToRunes => {
                let command = self.fetch(Resource::Perks);
                if self.league_status.lockfile.is_some() {
                    self.screen = Screen::RunepageDisplay { overviews: Vec::new() };
                }
                Step { command, report: None }
            },
            Message::GetRunesDone(result) => {
                let report = match result {
                    Ok(runes) => {
                        self.runes_by_id = Some(RuneIndex::new(runes));
                        None
                    },
                    Err(e) => Some(e),
                };
                let command = self.fetch(Resource::Pages);
                Step { command, report }
            },
            Message::GetRunepagesDone(Ok(pages)) => {
                let overviews = overviews_of(&pages);
                self.runepages = Some(pages);
                self.screen = Screen::RunepageDisplay { overviews };
                Step { command: Command::Idle, report: None }
            },
            Message::GetRunepagesDone(Err(e)) => Step { command: Command::Idle, report: Some(e) },
            Message::RunepageOverviewMessage(index) => {
                self.screen = Screen::RunepageModify { id: index };
                Step { command: Command::Idle, report: None }
            },
        }
    }

    fn fetch(&self, resource: Resource) -> (r: Command)
        ensures
            r.fetches(self.league_status.lockfile, resource),
    {
        match &self.league_status.lockfile {
            Some(l) => Command::Fetch(Request::new(l, resource)),
            None => Command::Idle,
        }
    }

    /// The selected perk ids of rune page `id`, each with the name of its
    /// rune where the perk list has one. `None` while the pages or the perk
    /// list are missing, or where there is no page `id`.
    pub fn selected_runes(&self, id: usize) -> (r: Option<Vec<(i64, Option<String>)>>)
        requires
            self.runes_by_id matches Some(index) ==> index.wf(),
        ensures
            r is Some <==> (self.runepages matches Some(pages) && self.runes_by_id is Some && id
                < pages@.len()),
            r matches Some(v) ==> {
                let sel = self.runepages->Some_0@[id as int].selectedPerkIds@;
                let index = self.runes_by_id->Some_0;
                &&& v@.len() == sel.len()
                &&& forall|k: int|
                    0 <= k < sel.len() ==> {
                        &&& (#[trigger] v@[k]).0 == sel[k]
                        &&& match v@[k].1 {
                            Some(n) => rune_name_spec(index@, sel[k]) == Some(n@),
                            None => rune_name_spec(index@, sel[k]) is None,
                        }
                    }
            },
    {
        match (&self.runepages, &self.runes_by_id) {
            (Some(pages), Some(index)) => {
                if id >= pages.len() {
                    return None;
                }
                let sel = &pages[id].selectedPerkIds;
                let mut out: Vec<(i64, Option<String>)> = Vec::new();
                let mut k: usize = 0;
                while k < sel.len()
                    invariant
                        index.wf(),
                        k <= sel@.len(),
                        out@.len() == k,
                        forall|j: int|
                            0 <= j < k ==> {
                                &&& (#[trigger] out@[j]).0 == sel@[j]
                                &&& match out@[j].1 {
                                    Some(n) => rune_name_spec(index@, sel@[j]) == Some(n@),
                                    None => rune_name_spec(index@, sel@[j]) is None,
                                }
                            },
                    decreases sel@.len() - k,
                {
                    let perk = sel[k];
                    let name = index.name_of(perk);
                    out.push((perk, name));
                    k = k + 1;
                }
                Some(out)
            },
            _ => None,
        }
    }
}

fn overviews_of(pages: &Vec<LolPerksPerkPage>) -> (r: Vec<RunepageOverview>)
    ensures
        r@.len() == pages@.len(),
        forall|k: int| 0 <= k < pages@.len() ==> (#[trigger] r@[k]).name@ == pages@[k].name@,
{
    let mut r: Vec<RunepageOverview> = Vec::new();
    let mut k: usize = 0;
    while k < pages.len()
        invariant
            k <= pages@.len(),
            r@.len() == k,
            forall|j: int| 0 <= j < k ==> (#[trigger] r@[j]).name@ == pages@[j].name@,
        decreases pages@.len() - k,
    {
        r.push(RunepageOverview::from_page(&pages[k]));
        k = k + 1;
    }
    r
}

} // verus!
