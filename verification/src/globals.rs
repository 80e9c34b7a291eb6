//! The saved high score: what is kept between games, when it is written back
//! and what a read of the save file makes of it.

use vstd::prelude::*;

use crate::clock::Timestamp;
use crate::stage::Stage;

verus! {

/// The format version of the save file that this game writes and accepts.
pub const DATA_VERSION: u32 = 1;

/// The record kept in the save file.
#[derive(Clone, Copy, Debug)]
pub struct SaveData {
    pub when: Timestamp,
    pub highscore: u32,
    pub version: Option<u32>,
}

/// The game-wide score keeping: the high score shown to the player, when the
/// stored high score was reached, and the high score last read from storage.
#[derive(Clone, Copy, Debug)]
pub struct Globals {
    pub highscore: u32,
    pub when: Option<Timestamp>,
    pub last_score: u32,
}

/// What reading the save file came to, for the caller to report.
#[derive(Debug)]
pub enum Retrieval {
    /// A record of the current version was read and adopted.
    Loaded,
    /// A record of another version (or none) was read and ignored.
    OldData,
    /// The file could not be read or parsed.
    Failed(String),
}

/// The score keeping after reading `loaded` from storage: a record of the
/// current version is adopted (and becomes the last stored score); anything
/// else clears the high score and its date, keeping the last stored score.
pub open spec fn after_retrieval(g: Globals, loaded: Result<SaveData, String>) -> Globals {
    match loaded {
        Ok(data) => if data.version == Some(DATA_VERSION) {
            Globals { highscore: data.highscore, when: Some(data.when), last_score: data.highscore }
        } else {
            Globals { highscore: 0, when: None, last_score: g.last_score }
        },
        Err(_) => Globals { highscore: 0, when: None, last_score: g.last_score },
    }
}

/// The record to write at instant `at`: none when the high score does not
/// beat the last stored one, else the high score, stamped with `at` and the
/// current format version.
pub open spec fn record_to_store(g: Globals, at: Timestamp) -> Option<SaveData> {
    if g.highscore <= g.last_score {
        None
    } else {
        Some(SaveData { when: at, highscore: g.highscore, version: Some(DATA_VERSION) })
    }
}

impl Globals {
    /// The score keeping before anything is read: all zero, no date.
    pub fn new() -> (g: Globals)
        ensures
            g.highscore == 0,
            g.when is None,
            g.last_score == 0,
    {
        Globals { highscore: 0, when: None, last_score: 0 }
    }

    /// Takes in what reading the save file gave.
    pub fn retrieve_score(&mut self, loaded: Result<SaveData, String>) -> (outcome: Retrieval)
        ensures
            *final(self) == after_retrieval(*old(self), loaded),
            match loaded {
                Ok(data) => if data.version == Some(DATA_VERSION) {
                    outcome is Loaded
                } else {
                    outcome is OldData
                },
                Err(msg) => outcome == Retrieval::Failed(msg),
            },
    {
        match loaded {
            Ok(data) => {
                if data.version == Some(DATA_VERSION) {
                    self.highscore = data.highscore;
                    self.last_score = data.highscore;
                    self.when = Some(data.when);
                    Retrieval::Loaded
                } else {
                    self.highscore = 0;
                    self.when = None;
                    Retrieval::OldData
                }
            },
            Err(msg) => {
                self.highscore = 0;
                self.when = None;
                Retrieval::Failed(msg)
            },
        }
    }

    /// The record to write if the save file is written at instant `at`: none
    /// when the high score does not beat the last stored one, else the high
    /// score, stamped with `at` and the current format version.
    pub fn store_request_at(&self, at: Timestamp) -> (record: Option<SaveData>)
        ensures
            record == record_to_store(*self, at),
    {
        if self.highscore <= self.last_score {
            return None;
        }
        Some(SaveData { when: at, highscore: self.highscore, version: Some(DATA_VERSION) })
    }
}

/// Law: reading back a record that was stored adopts it: the high score is the
/// one that was stored, it counts as stored, and its date is the instant of the
/// write, whatever the score keeping held before the read.
pub proof fn law_store_then_retrieve(g: Globals, at: Timestamp, before: Globals)
    requires
        record_to_store(g, at) is Some,
    ensures
        after_retrieval(before, Ok(record_to_store(g, at).unwrap())) == (Globals {
            highscore: g.highscore,
            when: Some(at),
            last_score: g.highscore,
        }),
{
}

/// Law: right after a record of the current version is read, there is
/// nothing to store: the save file is written only when a later high score
/// beats the one read.
pub proof fn law_nothing_to_store_after_load(g: Globals, data: SaveData, at: Timestamp)
    requires
        data.version == Some(DATA_VERSION),
    ensures
        record_to_store(after_retrieval(g, Ok(data)), at) is None,
{
}

/// Law: a read that fails, or finds a record of another version, leaves no high
/// score and no date, and does not change the last stored score.
pub proof fn law_unusable_read_clears(g: Globals, loaded: Result<SaveData, String>)
    requires
        !(loaded matches Ok(data) && data.version == Some(DATA_VERSION)),
    ensures
        after_retrieval(g, loaded).highscore == 0,
        after_retrieval(g, loaded).when is None,
        after_retrieval(g, loaded).last_score == g.last_score,
{
}

/// Law: a round that beats the stored high score gets it saved. The round
/// starts from the high score read from storage and publishes its high score
/// back; when the player dies, the record to store carries that high score.
pub proof fn law_beaten_highscore_is_saved(g: Globals, round: Stage, at: Timestamp)
    requires
        round.highscore > g.last_score,
    ensures
        record_to_store(Globals { highscore: round.highscore, ..g }, at) == Some(
            SaveData { when: at, highscore: round.highscore, version: Some(DATA_VERSION) },
        ),
{
}

/// Law: a round that does not beat the stored high score writes nothing.
pub proof fn law_unbeaten_highscore_is_not_saved(g: Globals, round: Stage, at: Timestamp)
    requires
        round.highscore <= g.last_score,
    ensures
        record_to_store(Globals { highscore: round.highscore, ..g }, at) is None,
{
}

/// Law: what a read does, field by field: a record of the current version
/// sets the high score and the last stored score to the record's high score
/// and the date to the record's; anything else clears the high score and the
/// date and keeps the last stored score.
pub proof fn law_retrieval_rule(g: Globals, loaded: Result<SaveData, String>)
    ensures
        (loaded matches Ok(data) && data.version == Some(1u32)) ==> after_retrieval(g, loaded)
            == (Globals {
            highscore: loaded->Ok_0.highscore,
            when: Some(loaded->Ok_0.when),
            last_score: loaded->Ok_0.highscore,
        }),
        !(loaded matches Ok(data) && data.version == Some(1u32)) ==> after_retrieval(g, loaded)
            == (Globals { highscore: 0, when: None, last_score: g.last_score }),
{
}

/// Law: a record is written exactly when the high score beats the last stored
/// one, and then it holds that high score, the instant of writing and format
/// version 1.
pub proof fn law_store_rule(g: Globals, at: Timestamp)
    ensures
        record_to_store(g, at) is Some <==> g.highscore > g.last_score,
        g.highscore > g.last_score ==> record_to_store(g, at) == Some(
            SaveData { when: at, highscore: g.highscore, version: Some(1u32) },
        ),
{
}

} // verus!
