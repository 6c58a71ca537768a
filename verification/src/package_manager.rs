//! The package managers that the application knows: how one is found on the
//! machine, how it is asked for updates, and how its answer is read.

use crate::error::{RoStartError, RoStartErrorView};
use crate::text::{
    chars_of, contains, decimal, decimal_string, from_utf8_lossy, has_part, has_prefix,
    line_ranges, lines, pieces, starts_with, texts, utf8_lossy,
};
use vstd::prelude::*;
use vstd::slice::slice_subrange;
use vstd::utf8::{decode_utf8, valid_utf8};

verus! {

/// A package manager.
#[derive(Debug, Clone, Copy, PartialEq, Eq, Structural)]
pub enum PackageManager {
    Apt,
    Dnf,
    Pacman,
    Zypper,
}

/// What to do next while looking for the machine's package manager.
#[derive(Debug, Clone, Copy, PartialEq, Eq, Structural)]
pub enum Detection {
    /// Ask this manager for its version and note whether it answered.
    Probe(PackageManager),
    /// This manager answered: it is the machine's.
    Found(PackageManager),
}

/// What running a command gave.
#[derive(Debug)]
pub struct CommandOutput {
    /// The code with which the command ended, if it ended by itself.
    pub exit_code: Option<i32>,
    /// What the command wrote to its standard output.
    pub stdout: Vec<u8>,
}

/// Whether updates are waiting, and how many.
#[derive(Debug, Clone, Copy, PartialEq, Eq, Structural)]
pub struct UpdateInfo {
    pub available: bool,
    pub count: usize,
    pub package_manager: PackageManager,
}

/// How many managers are known.
pub const CANDIDATES: usize = 4;

impl PackageManager {
    /// The place of this manager in the order in which managers are tried.
    pub open spec fn rank(self) -> nat {
        match self {
            PackageManager::Apt => 0,
            PackageManager::Dnf => 1,
            PackageManager::Pacman => 2,
            PackageManager::Zypper => 3,
        }
    }

    /// The manager that is tried at place `rank`.
    pub open spec fn candidate(rank: nat) -> PackageManager
        recommends
            rank < CANDIDATES,
    {
        if rank == 0 {
            PackageManager::Apt
        } else if rank == 1 {
            PackageManager::Dnf
        } else if rank == 2 {
            PackageManager::Pacman
        } else {
            PackageManager::Zypper
        }
    }

    /// The name of the manager's program.
    pub open spec fn program(self) -> Seq<char> {
        match self {
            PackageManager::Apt => "apt"@,
            PackageManager::Dnf => "dnf"@,
            PackageManager::Pacman => "pacman"@,
            PackageManager::Zypper => "zypper"@,
        }
    }

    /// The command that asks the manager for its version.
    pub open spec fn version_words(self) -> Seq<Seq<char>> {
        seq![self.program(), "--version"@]
    }

    /// The command that asks the manager which updates wait.
    pub open spec fn update_check_words(self) -> Seq<Seq<char>> {
        match self {
            PackageManager::Apt => seq!["apt"@, "list"@, "--upgradable"@],
            PackageManager::Dnf => seq!["dnf"@, "check-update"@],
            PackageManager::Pacman => seq!["checkupdates"@],
            PackageManager::Zypper => seq!["zypper"@, "list-updates"@],
        }
    }

    /// Whether a line of the manager's answer stands for one update.
    ///
    /// - apt: the line holds "upgradable" and does not begin with "Listing".
    /// - dnf, zypper: the line is not empty, does not begin with "#" or with
    ///   "Last metadata", and does not hold "Metadata cache created".
    /// - pacman: the line is not empty.
    pub open spec fn is_update_line(self, line: Seq<char>) -> bool {
        match self {
            PackageManager::Apt => has_part(line, "upgradable"@) && !has_prefix(
                line,
                "Listing"@,
            ),
            PackageManager::Dnf | PackageManager::Zypper => line.len() > 0 && line[0] != '#'
                && !has_prefix(line, "Last metadata"@) && !has_part(
                line,
                "Metadata cache created"@,
            ),
            PackageManager::Pacman => line.len() > 0,
        }
    }

    /// `is_update_line` as a predicate on lines.
    pub open spec fn update_filter(self) -> spec_fn(Seq<char>) -> bool {
        |line: Seq<char>| self.is_update_line(line)
    }

    /// How many lines of `text` stand for an update.
    pub open spec fn update_count(self, text: Seq<char>) -> nat {
        lines(text).filter(self.update_filter()).len()
    }

    /// The manager at place `rank` answered when asked for its version, and
    /// none before it did. `answers[i]` tells whether the manager at place `i`
    /// answered.
    pub open spec fn answered_first(answers: Seq<bool>, rank: nat) -> bool {
        &&& rank < CANDIDATES
        &&& rank < answers.len()
        &&& answers[rank as int]
        &&& forall|i: int| 0 <= i < rank ==> !answers[i]
    }

    /// None of the managers asked so far answered.
    pub open spec fn none_answered(answers: Seq<bool>) -> bool {
        forall|i: int| 0 <= i < answers.len() && i < CANDIDATES ==> !answers[i]
    }

    /// The name of the manager's program.
    pub fn name(&self) -> (r: &'static str)
        ensures
            r@ == self.program(),
    {
        match self {
            PackageManager::Apt => "apt",
            PackageManager::Dnf => "dnf",
            PackageManager::Pacman => "pacman",
            PackageManager::Zypper => "zypper",
        }
    }

    /// The managers in the order in which they are tried.
    pub fn candidates() -> (r: Vec<PackageManager>)
        ensures
            r@.len() == CANDIDATES,
            forall|i: int| 0 <= i < CANDIDATES ==> r@[i] == Self::candidate(i as nat),
    {
        vec![
            PackageManager::Apt,
            PackageManager::Dnf,
            PackageManager::Pacman,
            PackageManager::Zypper,
        ]
    }

    /// The command that asks the manager for its version. The manager is on
    /// the machine where this command runs and ends well.
    pub fn version_command(&self) -> (r: Vec<String>)
        ensures
            texts(r@) == self.version_words(),
    {
        let mut r: Vec<String> = Vec::new();
        r.push(String::from_str(self.name()));
        r.push(String::from_str("--version"));
        assert(texts(r@) =~= self.version_words());
        r
    }

    /// The next step in finding the machine's package manager. The managers
    /// are tried in a fixed order: apt, dnf, pacman, zypper. `answers` holds,
    /// in that order, whether each manager asked so far answered the request
    /// for its version; answers beyond the fourth are not looked at.
    ///
    /// The first manager that answered is found. While none has answered, the
    /// next one is to be asked. When all four were asked and none answered,
    /// no manager is found.
    pub fn detect(answers: &Vec<bool>) -> (r: Result<Detection, RoStartError>)
        ensures
            match r {
                Ok(Detection::Found(manager)) => Self::answered_first(answers@, manager.rank()),
                Ok(Detection::Probe(manager)) => Self::none_answered(answers@) && answers@.len()
                    == manager.rank(),
                Err(e) => Self::none_answered(answers@) && answers@.len() >= CANDIDATES && e@
                    == RoStartErrorView::PackageManagerNotFound,
            },
    {
        let order = Self::candidates();
        let mut rank: usize = 0;
        while rank < CANDIDATES
            invariant
                rank <= CANDIDATES,
                rank <= answers@.len(),
                order@.len() == CANDIDATES,
                forall|i: int| 0 <= i < CANDIDATES ==> order@[i] == Self::candidate(i as nat),
                forall|i: int| 0 <= i < rank ==> !answers@[i],
            decreases CANDIDATES - rank,
        {
            if rank >= answers.len() {
                return Ok(Detection::Probe(order[rank]));
            }
            if answers[rank] {
                return Ok(Detection::Found(order[rank]));
            }
            rank += 1;
        }
        Err(RoStartError::PackageManagerNotFound)
    }

    /// The command that asks the manager which updates wait.
    pub fn update_check_command(&self) -> (r: Vec<String>)
        ensures
            texts(r@) == self.update_check_words(),
    {
        let mut r: Vec<String> = Vec::new();
        match self {
            PackageManager::Apt => {
                r.push(String::from_str("apt"));
                r.push(String::from_str("list"));
                r.push(String::from_str("--upgradable"));
            },
            PackageManager::Dnf => {
                r.push(String::from_str("dnf"));
                r.push(String::from_str("check-update"));
            },
            PackageManager::Pacman => {
                r.push(String::from_str("checkupdates"));
            },
            PackageManager::Zypper => {
                r.push(String::from_str("zypper"));
                r.push(String::from_str("list-updates"));
            },
        }
        assert(texts(r@) =~= self.update_check_words());
        r
    }

    /// How many lines of `text`, the manager's answer to the update check,
    /// stand for an update.
    pub fn count_updates(&self, text: &str) -> (n: usize)
        ensures
            n == self.update_count(text@),
    {
        let chars = chars_of(text);
        let ranges = line_ranges(chars.as_slice());
        let upgradable = chars_of("upgradable");
        let listing = chars_of("Listing");
        let last_metadata = chars_of("Last metadata");
        let cache_created = chars_of("Metadata cache created");
        let ghost all = lines(text@);
        let ghost keep = self.update_filter();
        let mut n: usize = 0;
        let mut i: usize = 0;
        assert(all.take(0) =~= Seq::<Seq<char>>::empty());
        assert(all.take(0).filter(keep).len() == 0) by {
            reveal(Seq::filter);
        }
        while i < ranges.len()
            invariant
                i <= ranges.len(),
                n <= i,
                chars@ == text@,
                all == lines(text@),
                keep == self.update_filter(),
                pieces(chars@, ranges@) == all,
                forall|k: int|
                    0 <= k < ranges@.len() ==> (#[trigger] ranges@[k]).0 <= ranges@[k].1
                        <= chars@.len(),
                upgradable@ == "upgradable"@,
                listing@ == "Listing"@,
                last_metadata@ == "Last metadata"@,
                cache_created@ == "Metadata cache created"@,
                n == all.take(i as int).filter(keep).len(),
            decreases ranges.len() - i,
        {
            let (start, end) = ranges[i];
            let line = slice_subrange(chars.as_slice(), start, end);
            assert(line@ == all[i as int]);
            let counts: bool = match self {
                PackageManager::Apt => contains(line, upgradable.as_slice()) && !starts_with(
                    line,
                    listing.as_slice(),
                ),
                PackageManager::Dnf | PackageManager::Zypper => line.len() > 0 && line[0] != '#'
                    && !starts_with(line, last_metadata.as_slice()) && !contains(
                    line,
                    cache_created.as_slice(),
                ),
                PackageManager::Pacman => line.len() > 0,
            };
            assert(counts == keep(all[i as int]));
            proof {
                let longer = all.take(i + 1);
                assert(longer.drop_last() =~= all.take(i as int));
                assert(longer.last() == all[i as int]);
                reveal(Seq::filter);
            }
            if counts {
                n += 1;
            }
            i += 1;
        }
        assert(all.take(i as int) =~= all);
        n
    }

    /// Reads the outcome of the update check, where `run` is what running
    /// `update_check_command` gave, or why it could not be run.
    ///
    /// A command that ran gives a result whatever its exit code was: the
    /// updates are counted in what it wrote, read as UTF-8 with a replacement
    /// character for what is none. A command that could not be run gives the
    /// error `UpdateCheckFailed` with the reason.
    pub fn check_updates(
        &self,
        run: Result<CommandOutput, String>,
    ) -> (r: Result<UpdateInfo, RoStartError>)
        ensures
            match run {
                Ok(output) => {
                    &&& r matches Ok(info)
                    &&& info.tells(*self, self.update_count(utf8_lossy(output.stdout@)))
                    &&& valid_utf8(output.stdout@) ==> info.tells(
                        *self,
                        self.update_count(decode_utf8(output.stdout@)),
                    )
                },
                Err(reason) => r matches Err(e) && e@ == RoStartErrorView::UpdateCheckFailed(
                    "Command execution failed: "@ + reason@,
                ),
            },
    {
        match run {
            Ok(output) => {
                let text = from_utf8_lossy(output.stdout.as_slice());
                Ok(self.read_answer(text.as_str()))
            },
            Err(reason) => {
                let mut detail = String::from_str("Command execution failed: ");
                detail.append(reason.as_str());
                Err(RoStartError::UpdateCheckFailed(detail))
            },
        }
    }

    /// What the update check tells, where `text` is the manager's answer.
    pub fn read_answer(&self, text: &str) -> (r: UpdateInfo)
        ensures
            r.tells(*self, self.update_count(text@)),
    {
        let count: usize = self.count_updates(text);
        UpdateInfo { available: count > 0, count, package_manager: *self }
    }
}

impl CommandOutput {
    /// Whether the command ended in a way that deserves a warning: neither
    /// with code 0 nor with code 100, by which dnf says that updates wait.
    pub fn ended_unexpectedly(&self) -> (r: bool)
        ensures
            r == (self.exit_code != Some(0i32) && self.exit_code != Some(100i32)),
    {
        match self.exit_code {
            Some(code) => code != 0 && code != 100,
            None => true,
        }
    }
}

impl UpdateInfo {
    /// What the user is told of the updates.
    pub open spec fn text(self) -> Seq<char> {
        if self.available {
            decimal(self.count as nat) + " update(s) available"@
        } else {
            "System is up to date!"@
        }
    }

    /// This is what `manager` tells when `count` updates wait: the count
    /// itself, and that updates are available where it is not zero.
    pub open spec fn tells(self, manager: PackageManager, count: nat) -> bool {
        &&& self.package_manager == manager
        &&& self.count == count
        &&& self.available == (count > 0)
    }

    /// What the user is told of the updates.
    pub fn message(&self) -> (r: String)
        ensures
            r@ == self.text(),
    {
        if self.available {
            let mut s = decimal_string(self.count as u64);
            s.append(" update(s) available");
            s
        } else {
            String::from_str("System is up to date!")
        }
    }
}

/// On a machine where `installed[i]` tells whether the manager at place `i`
/// answers, and the manager at place `first` is the first that does: while
/// only managers before it were asked, none has answered, so that `detect`
/// names the next one to ask; from the moment it was asked, it is the one
/// that `detect` finds.
pub proof fn lemma_first_installed_is_found(installed: Seq<bool>, first: nat)
    requires
        PackageManager::answered_first(installed, first),
    ensures
        forall|asked: int|
            0 <= asked <= first ==> PackageManager::none_answered(#[trigger] installed.take(asked)),
        forall|asked: int|
            first < asked <= installed.len() ==> PackageManager::answered_first(
                #[trigger] installed.take(asked),
                first,
            ),
{
}

/// On a machine where no manager answers, none has answered however many
/// were asked, so that `detect` names one after the other and, after the
/// last, reports that there is none.
pub proof fn lemma_none_installed_none_found(installed: Seq<bool>)
    requires
        PackageManager::none_answered(installed),
    ensures
        forall|asked: int|
            0 <= asked <= installed.len() ==> PackageManager::none_answered(
                #[trigger] installed.take(asked),
            ),
{
}

} // verus!
