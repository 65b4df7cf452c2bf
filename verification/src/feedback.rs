//! Collision feedback: which sound a contact makes, and how loud.

use vstd::prelude::*;

verus! {

/// What kind of body took part in a contact.
#[derive(Clone, Copy, Debug, PartialEq, Eq, Structural)]
pub enum BodyTag {
    /// A die.
    Dice,
    /// Anything else: one of the playbox walls.
    Wall,
}

/// The two sounds a contact can trigger.
#[derive(Clone, Copy, Debug, PartialEq, Eq, Structural)]
pub enum Sound {
    /// Two dice hit each other.
    DiceDice,
    /// A die hit a wall.
    DiceWall,
}

/// The sound for a contact between bodies tagged `first` and `second`.
pub open spec fn sound_for(first: BodyTag, second: BodyTag) -> Sound {
    if first == BodyTag::Dice && second == BodyTag::Dice {
        Sound::DiceDice
    } else {
        Sound::DiceWall
    }
}

/// Picks the sound for a contact pair: the dice-dice sound when both bodies
/// are dice, the dice-wall sound otherwise.
pub fn classify(first: BodyTag, second: BodyTag) -> (sound: Sound)
    ensures
        sound == sound_for(first, second),
{
    match (first, second) {
        (BodyTag::Dice, BodyTag::Dice) => Sound::DiceDice,
        _ => Sound::DiceWall,
    }
}

/// How many steps of volume one step of impulse is worth.
pub const VOLUME_PER_IMPULSE: u64 = 1_000;

/// A collision that started in the last physics step.
#[derive(Clone, Copy, Debug, PartialEq, Eq, Structural)]
pub struct Contact {
    pub first: BodyTag,
    pub second: BodyTag,
    /// The sum of the normal impulse magnitudes over the pair's contact
    /// points, in millionths; `None` where the pair can no longer be found.
    pub impulse: Option<u32>,
}

/// A sound to play once, at a linear volume in millionths.
#[derive(Clone, Copy, Debug, PartialEq, Eq, Structural)]
pub struct Playback {
    pub sound: Sound,
    pub volume: u64,
}

/// The volume for an impulse: linear in it, and not clamped.
pub open spec fn volume_of(impulse: u32) -> u64 {
    (impulse * VOLUME_PER_IMPULSE) as u64
}

/// What a contact plays: nothing where its pair was not found.
pub open spec fn playback_of(contact: Contact) -> Option<Playback> {
    match contact.impulse {
        Some(impulse) => Some(
            Playback { sound: sound_for(contact.first, contact.second), volume: volume_of(impulse) },
        ),
        None => None,
    }
}

/// What a frame's contacts play: one sound for each contact whose pair was
/// found, in the order of the contacts.
pub open spec fn playbacks_of(contacts: Seq<Contact>) -> Seq<Playback>
    decreases contacts.len(),
{
    if contacts.len() == 0 {
        Seq::empty()
    } else {
        let before = playbacks_of(contacts.drop_last());
        match playback_of(contacts.last()) {
            Some(playback) => before.push(playback),
            None => before,
        }
    }
}

/// The volume at which to play an impact of the given impulse.
pub fn volume_for(impulse: u32) -> (volume: u64)
    ensures
        volume == impulse * VOLUME_PER_IMPULSE,
        volume == volume_of(impulse),
        impulse == 0 ==> volume == 0,
{
    impulse as u64 * VOLUME_PER_IMPULSE
}

/// The one-shot sound for a contact, if its pair was found.
pub fn playback_for(contact: Contact) -> (playback: Option<Playback>)
    ensures
        playback == playback_of(contact),
{
    match contact.impulse {
        Some(impulse) => Some(
            Playback { sound: classify(contact.first, contact.second), volume: volume_for(impulse) },
        ),
        None => None,
    }
}

/// The collisions of one frame, waiting to be turned into sound. Each is
/// handled once: draining the queue empties it.
pub struct CollisionQueue {
    pending: Vec<Contact>,
}

impl View for CollisionQueue {
    type V = Seq<Contact>;

    /// The contacts that wait, oldest first.
    closed spec fn view(&self) -> Seq<Contact> {
        self.pending@
    }
}

impl CollisionQueue {
    /// An empty queue.
    pub fn new() -> (queue: CollisionQueue)
        ensures
            queue@ == Seq::<Contact>::empty(),
    {
        CollisionQueue { pending: Vec::new() }
    }

    /// How many contacts wait.
    pub fn len(&self) -> (n: usize)
        ensures
            n == self@.len(),
    {
        self.pending.len()
    }

    /// Adds a contact behind those that wait.
    pub fn push(&mut self, contact: Contact)
        ensures
            final(self)@ == old(self)@.push(contact),
    {
        self.pending.push(contact);
    }

    /// Takes every waiting contact and returns the sounds to play for them.
    pub fn drain(&mut self) -> (sounds: Vec<Playback>)
        ensures
            sounds@ == playbacks_of(old(self)@),
            final(self)@ == Seq::<Contact>::empty(),
    {
        let mut sounds: Vec<Playback> = Vec::new();
        let n = self.pending.len();
        let mut i: usize = 0;
        while i < n
            invariant
                n == self.pending@.len(),
                self.pending@ == old(self)@,
                0 <= i <= n,
                sounds@ == playbacks_of(self.pending@.take(i as int)),
            decreases n - i,
        {
            proof {
                assert(self.pending@.take(i + 1).drop_last() =~= self.pending@.take(i as int));
            }
            match playback_for(self.pending[i]) {
                Some(playback) => sounds.push(playback),
                None => {},
            }
            i += 1;
        }
        proof {
            assert(self.pending@.take(n as int) =~= self.pending@);
        }
        self.pending.clear();
        sounds
    }
}

/// Sounds never outnumber contacts, and every contact whose pair was found
/// is heard.
pub proof fn lemma_playbacks_count(contacts: Seq<Contact>)
    ensures
        playbacks_of(contacts).len() <= contacts.len(),
        (forall|i: int| 0 <= i < contacts.len() ==> (#[trigger] contacts[i]).impulse is Some)
            ==> playbacks_of(contacts).len() == contacts.len(),
    decreases contacts.len(),
{
    if contacts.len() > 0 {
        lemma_playbacks_count(contacts.drop_last());
        assert(forall|i: int|
            0 <= i < contacts.drop_last().len() ==> contacts.drop_last()[i] == contacts[i]);
    }
}

/// Every sound played is the sound of one of the contacts.
pub proof fn lemma_playbacks_come_from_contacts(contacts: Seq<Contact>, k: int)
    requires
        0 <= k < playbacks_of(contacts).len(),
    ensures
        exists|i: int|
            0 <= i < contacts.len() && playback_of(#[trigger] contacts[i]) == Some(
                playbacks_of(contacts)[k],
            ),
    decreases contacts.len(),
{
    let before = playbacks_of(contacts.drop_last());
    if k < before.len() {
        lemma_playbacks_come_from_contacts(contacts.drop_last(), k);
        let i = choose|i: int|
            0 <= i < contacts.drop_last().len() && playback_of(
                #[trigger] contacts.drop_last()[i],
            ) == Some(before[k]);
        assert(contacts[i] == contacts.drop_last()[i]);
    } else {
        assert(playback_of(contacts[contacts.len() - 1]) == Some(playbacks_of(contacts)[k]));
    }
}

/// Each contact is heard on its own: the sounds of two runs of contacts, one
/// after the other, are the sounds of the first run followed by the sounds of
/// the second.
pub proof fn lemma_playbacks_of_runs(first: Seq<Contact>, second: Seq<Contact>)
    ensures
        playbacks_of(first + second) == playbacks_of(first) + playbacks_of(second),
    decreases second.len(),
{
    if second.len() == 0 {
        assert(first + second =~= first);
        assert(playbacks_of(first) + playbacks_of(second) =~= playbacks_of(first));
    } else {
        lemma_playbacks_of_runs(first, second.drop_last());
        assert((first + second).drop_last() =~= first + second.drop_last());
        assert((first + second).last() == second.last());
        let before = playbacks_of(first) + playbacks_of(second.drop_last());
        match playback_of(second.last()) {
            Some(playback) => {
                assert(before.push(playback) =~= playbacks_of(first) + playbacks_of(
                    second.drop_last(),
                ).push(playback));
            },
            None => {},
        }
    }
}

/// A contact between two dice plays the dice sound, any other the wall
/// sound, and an impact of no impulse is silent.
pub proof fn lemma_classification(first: BodyTag, second: BodyTag)
    ensures
        first == BodyTag::Dice && second == BodyTag::Dice ==> sound_for(first, second)
            == Sound::DiceDice,
        first == BodyTag::Wall || second == BodyTag::Wall ==> sound_for(first, second)
            == Sound::DiceWall,
        volume_of(0) == 0,
{
}

} // verus!
