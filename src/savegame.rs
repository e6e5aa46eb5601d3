//! The persisted data: highscore, settings and unlocked skills. Reading and
//! writing the file is left to the caller; these functions change the data.

use vstd::prelude::*;

verus! {

/// Volumes, as ratios of full volume.
#[derive(Clone, Copy, Debug, PartialEq, Eq, Structural)]
pub struct GameSettings {
    pub music_volume: u64,
    pub sound_volume: u64,
}

#[derive(Clone, Debug)]
pub struct SaveData {
    pub highscore: i32,
    pub settings: GameSettings,
    pub unlocked_skills: Vec<String>,
}

/// The names in a list of skill identifiers.
pub open spec fn skill_names(s: Seq<String>) -> Seq<Seq<char>> {
    s.map_values(|x: String| x@)
}

impl Default for SaveData {
    /// No highscore, music at 70% and sounds at 80%, no skills unlocked.
    fn default() -> (r: SaveData)
        ensures
            r.highscore == 0,
            r.settings == (GameSettings { music_volume: 700, sound_volume: 800 }),
            r.unlocked_skills@.len() == 0,
    {
        SaveData {
            highscore: 0,
            settings: GameSettings { music_volume: 700, sound_volume: 800 },
            unlocked_skills: Vec::new(),
        }
    }
}

/// Records `new_score` as the highscore.
pub fn update_highscore(data: &mut SaveData, new_score: i32)
    ensures
        final(data).highscore == new_score,
        final(data).settings == old(data).settings,
        final(data).unlocked_skills@ == old(data).unlocked_skills@,
{
    data.highscore = new_score;
}

/// Replaces the settings.
pub fn update_settings(data: &mut SaveData, new_settings: GameSettings)
    ensures
        final(data).settings == new_settings,
        final(data).highscore == old(data).highscore,
        final(data).unlocked_skills@ == old(data).unlocked_skills@,
{
    data.settings = new_settings;
}

/// Adds `skill_id` to the unlocked skills unless it is there; tells whether
/// it was added (and the data needs saving).
pub fn unlock_skill(data: &mut SaveData, skill_id: &str) -> (added: bool)
    ensures
        added == !skill_names(old(data).unlocked_skills@).contains(skill_id@),
        added ==> skill_names(final(data).unlocked_skills@) == skill_names(old(data).unlocked_skills@).push(skill_id@),
        !added ==> final(data).unlocked_skills@ == old(data).unlocked_skills@,
        final(data).highscore == old(data).highscore,
        final(data).settings == old(data).settings,
{
    let id = skill_id.to_owned();
    let n = data.unlocked_skills.len();
    for i in 0..n
        invariant
            n == data.unlocked_skills@.len(),
            data.unlocked_skills@ == old(data).unlocked_skills@,
            data.highscore == old(data).highscore,
            data.settings == old(data).settings,
            id@ == skill_id@,
            forall|j: int| 0 <= j < i ==> (#[trigger] data.unlocked_skills@[j])@ != skill_id@,
    {
        if data.unlocked_skills[i] == id {
            proof {
                assert(skill_names(old(data).unlocked_skills@)[i as int] == skill_id@);
            }
            return false;
        }
    }
    proof {
        assert(!skill_names(old(data).unlocked_skills@).contains(skill_id@)) by {
            if skill_names(old(data).unlocked_skills@).contains(skill_id@) {
                let j = choose|j: int| 0 <= j < n && skill_names(old(data).unlocked_skills@)[j] == skill_id@;
                assert(data.unlocked_skills@[j]@ == skill_id@);
            }
        }
    }
    data.unlocked_skills.push(id);
    proof {
        assert(skill_names(data.unlocked_skills@) =~= skill_names(old(data).unlocked_skills@).push(skill_id@));
    }
    true
}

/// The unlocked skills, in the order they were unlocked.
pub fn load_unlocked_skills(data: &SaveData) -> (r: Vec<String>)
    ensures
        r@ == data.unlocked_skills@,
{
    let mut out: Vec<String> = Vec::new();
    let n = data.unlocked_skills.len();
    for i in 0..n
        invariant
            n == data.unlocked_skills@.len(),
            out@ == data.unlocked_skills@.take(i as int),
    {
        out.push(data.unlocked_skills[i].clone());
        proof {
            assert(out@ =~= data.unlocked_skills@.take(i + 1));
        }
    }
    proof {
        assert(out@ =~= data.unlocked_skills@);
    }
    out
}

} // verus!
