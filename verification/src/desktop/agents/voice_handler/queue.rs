//! The spoken-output queue: items ordered by priority, with playback and
//! interruption flags, plus voice profiles and language detection.
use vstd::prelude::*;
use std::collections::VecDeque;
use crate::text::{chars_of, lowercase_of, split_words, to_lowercase, vec_matches_at, words_of};

verus! {

/// Priority of a queued utterance; `High` is spoken first.
#[derive(Debug, Clone, Copy, PartialEq, Eq, PartialOrd, Ord, Structural)]
pub enum Priority {
    High,
    Normal,
    Low,
}

/// The position of a priority in the speaking order.
pub open spec fn rank(p: Priority) -> nat {
    match p {
        Priority::High => 0,
        Priority::Normal => 1,
        Priority::Low => 2,
    }
}

fn rank_of(p: Priority) -> (r: u8)
    ensures
        r as nat == rank(p),
{
    match p {
        Priority::High => 0,
        Priority::Normal => 1,
        Priority::Low => 2,
    }
}

/// Synthesis parameters. Speed, stability and similarity boost are kept in
/// thousandths (1000 stands for 1.0).
#[derive(Debug)]
pub struct TtsParams {
    pub speed_permille: u32,
    pub stability_permille: u32,
    pub similarity_boost_permille: u32,
    pub language: String,
}

impl Clone for TtsParams {
    fn clone(&self) -> (r: Self)
        ensures
            r == *self,
    {
        TtsParams {
            speed_permille: self.speed_permille,
            stability_permille: self.stability_permille,
            similarity_boost_permille: self.similarity_boost_permille,
            language: self.language.clone(),
        }
    }
}

/// The default parameters: speed 1.0, stability 0.3, similarity 0.7, Turkish.
pub open spec fn default_params_spec(p: TtsParams) -> bool {
    &&& p.speed_permille == 1000
    &&& p.stability_permille == 300
    &&& p.similarity_boost_permille == 700
    &&& p.language@ == "tr"@
}

impl Default for TtsParams {
    fn default() -> (r: Self)
        ensures
            default_params_spec(r),
    {
        TtsParams {
            speed_permille: 1000,
            stability_permille: 300,
            similarity_boost_permille: 700,
            language: "tr".to_string(),
        }
    }
}

/// A queued utterance.
#[derive(Debug)]
pub struct AudioItem {
    pub text: String,
    pub priority: Priority,
    pub tts_params: TtsParams,
}

impl Clone for AudioItem {
    fn clone(&self) -> (r: Self)
        ensures
            r == *self,
    {
        AudioItem {
            text: self.text.clone(),
            priority: self.priority,
            tts_params: self.tts_params.clone(),
        }
    }
}

/// Preset voice styles.
#[derive(Debug, Clone, Copy, PartialEq, Eq, Structural)]
pub enum VoiceProfile {
    Hizli,
    Sakin,
    Teknik,
    Varsayilan,
}

/// The parameters of each profile, as (speed, stability, similarity) in thousandths.
pub open spec fn profile_values(p: VoiceProfile) -> (u32, u32, u32) {
    match p {
        VoiceProfile::Hizli => (1500, 200, 500),
        VoiceProfile::Sakin => (700, 700, 900),
        VoiceProfile::Teknik => (900, 500, 800),
        VoiceProfile::Varsayilan => (1000, 300, 700),
    }
}

impl VoiceProfile {
    /// The synthesis parameters of this profile, always in Turkish.
    pub fn to_tts_params(&self) -> (r: TtsParams)
        ensures
            (r.speed_permille, r.stability_permille, r.similarity_boost_permille)
                == profile_values(*self),
            r.language@ == "tr"@,
    {
        match self {
            VoiceProfile::Hizli => TtsParams {
                speed_permille: 1500,
                stability_permille: 200,
                similarity_boost_permille: 500,
                language: "tr".to_string(),
            },
            VoiceProfile::Sakin => TtsParams {
                speed_permille: 700,
                stability_permille: 700,
                similarity_boost_permille: 900,
                language: "tr".to_string(),
            },
            VoiceProfile::Teknik => TtsParams {
                speed_permille: 900,
                stability_permille: 500,
                similarity_boost_permille: 800,
                language: "tr".to_string(),
            },
            VoiceProfile::Varsayilan => TtsParams::default(),
        }
    }
}

// ---------------------------------------------------------------------------
// Queue
// ---------------------------------------------------------------------------

/// Index of the first item at or after `i` whose priority ranks after `r`
/// (or the length): where a new item of rank `r` is inserted.
pub open spec fn insert_pos(s: Seq<AudioItem>, r: nat, i: int) -> int
    decreases s.len() - i,
{
    if i < 0 || i >= s.len() {
        s.len() as int
    } else if rank(s[i].priority) > r {
        i
    } else {
        insert_pos(s, r, i + 1)
    }
}

/// Items are in speaking order: ranks never decrease.
pub open spec fn sorted_by_priority(s: Seq<AudioItem>) -> bool {
    forall|i: int, j: int| 0 <= i < j < s.len() ==> rank(#[trigger] s[i].priority) <= rank(
        #[trigger] s[j].priority,
    )
}

/// Whether an item of this priority jumps to the front and requests an interrupt.
pub open spec fn preempts(priority: Priority, playing: bool) -> bool {
    priority == Priority::High && playing
}

/// The queue after inserting `item`, given whether audio is playing.
pub open spec fn queue_after_insert(items: Seq<AudioItem>, item: AudioItem, playing: bool) -> Seq<
    AudioItem,
> {
    if preempts(item.priority, playing) {
        seq![item] + items
    } else {
        items.insert(insert_pos(items, rank(item.priority), 0), item)
    }
}

/// The queue of utterances waiting to be spoken.
pub struct AudioQueue {
    items: VecDeque<AudioItem>,
    playing: bool,
    interrupt_requested: bool,
}

impl AudioQueue {
    /// The waiting items, front first.
    pub closed spec fn items_view(&self) -> Seq<AudioItem> {
        self.items@
    }

    pub closed spec fn playing_view(&self) -> bool {
        self.playing
    }

    pub closed spec fn interrupt_view(&self) -> bool {
        self.interrupt_requested
    }

    /// The waiting items are always in speaking order.
    #[verifier::type_invariant]
    spec fn in_speaking_order(&self) -> bool {
        sorted_by_priority(self.items@)
    }

    /// An empty queue, not playing, with no interrupt pending.
    pub fn new() -> (q: Self)
        ensures
            q.items_view() == Seq::<AudioItem>::empty(),
            sorted_by_priority(q.items_view()),
            !q.playing_view(),
            !q.interrupt_view(),
    {
        AudioQueue { items: VecDeque::new(), playing: false, interrupt_requested: false }
    }

    fn insert_item(&mut self, item: AudioItem)
        ensures
            final(self).items_view() == queue_after_insert(
                old(self).items_view(),
                item,
                old(self).playing_view(),
            ),
            final(self).playing_view() == old(self).playing_view(),
            final(self).interrupt_view() == (old(self).interrupt_view() || preempts(
                item.priority,
                old(self).playing_view(),
            )),
    {
        proof {
            use_type_invariant(&*self);
            lemma_insert_keeps_order(self.items@, item, self.playing);
        }
        let is_high = item.priority == Priority::High && self.playing;
        if is_high {
            self.interrupt_requested = true;
        }
        let mut items: VecDeque<AudioItem> = VecDeque::new();
        std::mem::swap(&mut items, &mut self.items);
        if is_high {
            items.push_front(item);
            assert(items@ =~= seq![item] + old(self).items@);
        } else {
            let r = rank_of(item.priority);
            let ghost s = items@;
            let mut idx: usize = 0;
            while idx < items.len() && rank_of(items[idx].priority) <= r
                invariant
                    items@ == s,
                    idx <= s.len(),
                    r as nat == rank(item.priority),
                    insert_pos(s, rank(item.priority), 0) == insert_pos(
                        s,
                        rank(item.priority),
                        idx as int,
                    ),
                decreases s.len() - idx,
            {
                assert(rank(s[idx as int].priority) <= rank(item.priority));
                assert(insert_pos(s, rank(item.priority), idx as int) == insert_pos(
                    s,
                    rank(item.priority),
                    idx as int + 1,
                ));
                idx += 1;
            }
            items.insert(idx, item);
        }
        self.items = items;
    }

    /// Queues `text` with the default parameters.
    pub fn enqueue(&mut self, text: String, priority: Priority)
        ensures
            sorted_by_priority(final(self).items_view()),
            exists|p: TtsParams|
                default_params_spec(p) && final(self).items_view() == queue_after_insert(
                    old(self).items_view(),
                    AudioItem { text, priority, tts_params: p },
                    old(self).playing_view(),
                ),
            final(self).playing_view() == old(self).playing_view(),
            final(self).interrupt_view() == (old(self).interrupt_view() || preempts(
                priority,
                old(self).playing_view(),
            )),
            final(self).items_view().len() == old(self).items_view().len() + 1,
            preempts(priority, old(self).playing_view()) ==> final(self).items_view()[0].text == text
                && final(self).items_view()[0].priority == priority
                && final(self).items_view().drop_first() == old(self).items_view(),
            !preempts(priority, old(self).playing_view()) ==> exists|k: int|
                {
                    &&& 0 <= k <= old(self).items_view().len()
                    &&& final(self).items_view()[k].text == text
                    &&& final(self).items_view()[k].priority == priority
                    &&& final(self).items_view().remove(k) == old(self).items_view()
                    &&& forall|j: int|
                        0 <= j < k ==> rank(#[trigger] old(self).items_view()[j].priority) <= rank(
                            priority,
                        )
                    &&& forall|j: int|
                        k <= j < old(self).items_view().len() ==> rank(
                            #[trigger] old(self).items_view()[j].priority,
                        ) > rank(priority)
                },
    {
        proof {
            use_type_invariant(&*self);
        }
        let params = TtsParams::default();
        let item = AudioItem { text, priority, tts_params: params };
        let ghost it = item;
        let ghost before = self.items@;
        let ghost playing = self.playing;
        proof {
            lemma_insert_placement(before, it, playing);
        }
        self.insert_item(item);
        assert(default_params_spec(it.tts_params));
        proof {
            use_type_invariant(&*self);
        }
    }

    /// Queues `text` with the given parameters.
    pub fn enqueue_with_params(&mut self, text: String, priority: Priority, params: TtsParams)
        ensures
            sorted_by_priority(final(self).items_view()),
            final(self).items_view() == queue_after_insert(
                old(self).items_view(),
                AudioItem { text, priority, tts_params: params },
                old(self).playing_view(),
            ),
            final(self).playing_view() == old(self).playing_view(),
            final(self).interrupt_view() == (old(self).interrupt_view() || preempts(
                priority,
                old(self).playing_view(),
            )),
    {
        self.insert_item(AudioItem { text, priority, tts_params: params });
        proof {
            use_type_invariant(&*self);
        }
    }

    /// Removes and returns the front item.
    pub fn dequeue(&mut self) -> (r: Option<AudioItem>)
        ensures
            sorted_by_priority(final(self).items_view()),
            old(self).items_view().len() > 0 ==> forall|k: int|
                0 <= k < old(self).items_view().len() ==> rank(r->0.priority) <= rank(
                    #[trigger] old(self).items_view()[k].priority,
                ),
            old(self).items_view().len() == 0 ==> r is None && final(self).items_view()
                == old(self).items_view(),
            old(self).items_view().len() > 0 ==> r == Some(old(self).items_view()[0])
                && final(self).items_view() == old(self).items_view().drop_first(),
            final(self).playing_view() == old(self).playing_view(),
            final(self).interrupt_view() == old(self).interrupt_view(),
    {
        proof {
            use_type_invariant(&*self);
            if self.items@.len() > 0 {
                lemma_dequeue_keeps_order(self.items@);
            }
        }
        let mut items: VecDeque<AudioItem> = VecDeque::new();
        std::mem::swap(&mut items, &mut self.items);
        let r = items.pop_front();
        self.items = items;
        proof {
            use_type_invariant(&*self);
        }
        r
    }

    /// A copy of the front item, leaving the queue unchanged.
    pub fn peek(&self) -> (r: Option<AudioItem>)
        ensures
            self.items_view().len() == 0 ==> r is None,
            self.items_view().len() > 0 ==> r == Some(self.items_view()[0]),
    {
        if self.items.len() == 0 {
            None
        } else {
            Some(self.items[0].clone())
        }
    }

    pub fn len(&self) -> (r: usize)
        ensures
            r == self.items_view().len(),
    {
        self.items.len()
    }

    pub fn is_empty(&self) -> (r: bool)
        ensures
            r == (self.items_view().len() == 0),
    {
        self.items.len() == 0
    }

    /// Drops every waiting item.
    pub fn clear(&mut self)
        ensures
            final(self).items_view() == Seq::<AudioItem>::empty(),
            final(self).playing_view() == old(self).playing_view(),
            final(self).interrupt_view() == old(self).interrupt_view(),
    {
        self.items = VecDeque::new();
    }

    pub fn start_playing(&mut self)
        ensures
            final(self).playing_view(),
            final(self).items_view() == old(self).items_view(),
            final(self).interrupt_view() == old(self).interrupt_view(),
    {
        proof {
            use_type_invariant(&*self);
        }
        self.playing = true;
    }

    pub fn stop_playing(&mut self)
        ensures
            !final(self).playing_view(),
            final(self).items_view() == old(self).items_view(),
            final(self).interrupt_view() == old(self).interrupt_view(),
    {
        proof {
            use_type_invariant(&*self);
        }
        self.playing = false;
    }

    pub fn is_playing(&self) -> (r: bool)
        ensures
            r == self.playing_view(),
    {
        self.playing
    }

    /// Asks the player to stop the current utterance.
    pub fn request_interrupt(&mut self)
        ensures
            final(self).interrupt_view(),
            final(self).items_view() == old(self).items_view(),
            final(self).playing_view() == old(self).playing_view(),
    {
        proof {
            use_type_invariant(&*self);
        }
        self.interrupt_requested = true;
    }

    /// Reports and consumes a pending interrupt request.
    pub fn check_interrupt(&mut self) -> (r: bool)
        ensures
            r == old(self).interrupt_view(),
            !final(self).interrupt_view(),
            final(self).items_view() == old(self).items_view(),
            final(self).playing_view() == old(self).playing_view(),
    {
        proof {
            use_type_invariant(&*self);
        }
        let r = self.interrupt_requested;
        self.interrupt_requested = false;
        r
    }
}

proof fn lemma_insert_pos_props(s: Seq<AudioItem>, r: nat, i: int)
    requires
        0 <= i <= s.len(),
    ensures
        i <= insert_pos(s, r, i) <= s.len(),
        forall|k: int| i <= k < insert_pos(s, r, i) ==> rank(#[trigger] s[k].priority) <= r,
        insert_pos(s, r, i) < s.len() ==> rank(s[insert_pos(s, r, i)].priority) > r,
    decreases s.len() - i,
{
    if i < s.len() && rank(s[i].priority) <= r {
        lemma_insert_pos_props(s, r, i + 1);
    }
}

/// Inserting into a queue in speaking order keeps it in speaking order.
pub proof fn lemma_insert_keeps_order(items: Seq<AudioItem>, item: AudioItem, playing: bool)
    requires
        sorted_by_priority(items),
    ensures
        sorted_by_priority(queue_after_insert(items, item, playing)),
{
    let out = queue_after_insert(items, item, playing);
    if preempts(item.priority, playing) {
        assert forall|i: int, j: int| 0 <= i < j < out.len() implies rank(
            #[trigger] out[i].priority,
        ) <= rank(#[trigger] out[j].priority) by {
            if i > 0 {
                assert(out[i] == items[i - 1]);
                assert(out[j] == items[j - 1]);
            }
        }
    } else {
        let p = insert_pos(items, rank(item.priority), 0);
        lemma_insert_pos_props(items, rank(item.priority), 0);
        assert forall|i: int, j: int| 0 <= i < j < out.len() implies rank(
            #[trigger] out[i].priority,
        ) <= rank(#[trigger] out[j].priority) by {
            if j < p {
            } else if j == p {
                assert(out[i] == items[i]);
            } else if i < p {
                assert(out[j] == items[j - 1]);
                if p < items.len() {
                    assert(rank(items[p].priority) <= rank(items[j - 1].priority));
                }
            } else if i == p {
                assert(out[j] == items[j - 1]);
                assert(rank(items[p].priority) > rank(item.priority));
                assert(rank(items[p].priority) <= rank(items[j - 1].priority));
            } else {
                assert(out[i] == items[i - 1]);
                assert(out[j] == items[j - 1]);
            }
        }
    }
}

/// An item that does not preempt is spoken after every waiting item of the
/// same or a more urgent priority, and before every less urgent one.
pub proof fn lemma_insert_fifo_within_priority(
    items: Seq<AudioItem>,
    item: AudioItem,
    playing: bool,
)
    requires
        sorted_by_priority(items),
        !preempts(item.priority, playing),
    ensures
        ({
            let out = queue_after_insert(items, item, playing);
            let p = insert_pos(items, rank(item.priority), 0);
            &&& out.len() == items.len() + 1
            &&& out[p] == item
            &&& forall|k: int| 0 <= k < p ==> rank(#[trigger] items[k].priority) <= rank(
                item.priority,
            )
            &&& forall|k: int| p <= k < items.len() ==> rank(#[trigger] items[k].priority) > rank(
                item.priority,
            )
        }),
{
    let p = insert_pos(items, rank(item.priority), 0);
    lemma_insert_pos_props(items, rank(item.priority), 0);
    assert forall|k: int| p <= k < items.len() implies rank(#[trigger] items[k].priority) > rank(
        item.priority,
    ) by {
        assert(rank(items[p].priority) <= rank(items[k].priority));
    }
}

/// Where an item lands: with audio playing, an urgent item goes first;
/// otherwise it goes right after the last waiting item of the same or a more
/// urgent priority, ahead of every less urgent one. The other items keep their
/// order.
pub proof fn lemma_insert_placement(items: Seq<AudioItem>, item: AudioItem, playing: bool)
    requires
        sorted_by_priority(items),
    ensures
        queue_after_insert(items, item, playing).len() == items.len() + 1,
        preempts(item.priority, playing) ==> queue_after_insert(items, item, playing)[0] == item
            && queue_after_insert(items, item, playing).drop_first() == items,
        !preempts(item.priority, playing) ==> exists|k: int|
            {
                &&& 0 <= k <= items.len()
                &&& queue_after_insert(items, item, playing)[k] == item
                &&& queue_after_insert(items, item, playing).remove(k) == items
                &&& forall|j: int| 0 <= j < k ==> rank(#[trigger] items[j].priority) <= rank(
                    item.priority,
                )
                &&& forall|j: int| k <= j < items.len() ==> rank(#[trigger] items[j].priority)
                    > rank(item.priority)
            },
{
    let out = queue_after_insert(items, item, playing);
    if preempts(item.priority, playing) {
        assert(out.drop_first() =~= items);
    } else {
        let p = insert_pos(items, rank(item.priority), 0);
        lemma_insert_fifo_within_priority(items, item, playing);
        lemma_insert_pos_props(items, rank(item.priority), 0);
        assert(out.remove(p) =~= items);
    }
}

/// Taking the front item keeps the rest in speaking order, and the front item
/// is one of the most urgent waiting.
pub proof fn lemma_dequeue_keeps_order(items: Seq<AudioItem>)
    requires
        sorted_by_priority(items),
        items.len() > 0,
    ensures
        sorted_by_priority(items.drop_first()),
        forall|k: int| 0 <= k < items.len() ==> rank(items[0].priority) <= rank(
            #[trigger] items[k].priority,
        ),
{
    assert forall|i: int, j: int| 0 <= i < j < items.drop_first().len() implies rank(
        #[trigger] items.drop_first()[i].priority,
    ) <= rank(#[trigger] items.drop_first()[j].priority) by {
        assert(items.drop_first()[i] == items[i + 1]);
        assert(items.drop_first()[j] == items[j + 1]);
    }
    assert forall|k: int| 0 <= k < items.len() implies rank(items[0].priority) <= rank(
        #[trigger] items[k].priority,
    ) by {
        if k > 0 {
            assert(rank(items[0].priority) <= rank(items[k].priority));
        }
    }
}

// ---------------------------------------------------------------------------
// Language detection
// ---------------------------------------------------------------------------

/// Letters specific to Turkish.
pub open spec fn is_turkish_letter(c: char) -> bool {
    c == 'ğ' || c == 'ü' || c == 'ş' || c == 'ı' || c == 'ö' || c == 'ç' || c == 'Ğ' || c == 'Ü'
        || c == 'Ş' || c == 'İ' || c == 'Ö' || c == 'Ç'
}

fn turkish_letter(c: char) -> (r: bool)
    ensures
        r == is_turkish_letter(c),
{
    c == 'ğ' || c == 'ü' || c == 'ş' || c == 'ı' || c == 'ö' || c == 'ç' || c == 'Ğ' || c == 'Ü'
        || c == 'Ş' || c == 'İ' || c == 'Ö' || c == 'Ç'
}

/// Common Turkish function words.
pub open spec fn is_turkish_word(w: Seq<char>) -> bool {
    w == "bir"@ || w == "bu"@ || w == "ve"@ || w == "ile"@ || w == "için"@ || w == "ama"@ || w
        == "veya"@ || w == "gibi"@ || w == "kadar"@ || w == "sonra"@ || w == "önce"@ || w
        == "üzerinde"@ || w == "arasında"@ || w == "altında"@ || w == "yaklaşık"@ || w == "hem"@
        || w == "ya da"@ || w == "çünkü"@ || w == "ancak"@ || w == "fakat"@ || w == "değil"@ || w
        == "çok"@ || w == "az"@ || w == "büyük"@
}

/// Common English function words.
pub open spec fn is_english_word(w: Seq<char>) -> bool {
    w == "the"@ || w == "and"@ || w == "for"@ || w == "are"@ || w == "but"@ || w == "not"@ || w
        == "you"@ || w == "all"@ || w == "can"@ || w == "had"@ || w == "her"@ || w == "was"@ || w
        == "one"@ || w == "our"@ || w == "out"@ || w == "has"@ || w == "have"@ || w == "been"@
        || w == "some"@ || w == "them"@ || w == "than"@ || w == "what"@ || w == "when"@ || w
        == "which"@ || w == "will"@ || w == "would"@ || w == "about"@ || w == "into"@
}

/// `w` has exactly the characters of `lit`.
fn same_chars(w: &Vec<char>, lit: &str) -> (r: bool)
    ensures
        r == (w@ == lit@),
{
    let l = chars_of(lit);
    if l.len() != w.len() {
        return false;
    }
    let r = vec_matches_at(w, &l, 0);
    if r {
        assert(w@ =~= l@);
    }
    r
}

fn turkish_word(w: &Vec<char>) -> (r: bool)
    ensures
        r == is_turkish_word(w@),
{
    same_chars(w, "bir") || same_chars(w, "bu") || same_chars(w, "ve") || same_chars(w, "ile")
        || same_chars(w, "için") || same_chars(w, "ama") || same_chars(w, "veya") || same_chars(
        w,
        "gibi",
    ) || same_chars(w, "kadar") || same_chars(w, "sonra") || same_chars(w, "önce") || same_chars(
        w,
        "üzerinde",
    ) || same_chars(w, "arasında") || same_chars(w, "altında") || same_chars(w, "yaklaşık")
        || same_chars(w, "hem") || same_chars(w, "ya da") || same_chars(w, "çünkü") || same_chars(
        w,
        "ancak",
    ) || same_chars(w, "fakat") || same_chars(w, "değil") || same_chars(w, "çok") || same_chars(
        w,
        "az",
    ) || same_chars(w, "büyük")
}

fn english_word(w: &Vec<char>) -> (r: bool)
    ensures
        r == is_english_word(w@),
{
    same_chars(w, "the") || same_chars(w, "and") || same_chars(w, "for") || same_chars(w, "are")
        || same_chars(w, "but") || same_chars(w, "not") || same_chars(w, "you") || same_chars(
        w,
        "all",
    ) || same_chars(w, "can") || same_chars(w, "had") || same_chars(w, "her") || same_chars(
        w,
        "was",
    ) || same_chars(w, "one") || same_chars(w, "our") || same_chars(w, "out") || same_chars(
        w,
        "has",
    ) || same_chars(w, "have") || same_chars(w, "been") || same_chars(w, "some") || same_chars(
        w,
        "them",
    ) || same_chars(w, "than") || same_chars(w, "what") || same_chars(w, "when") || same_chars(
        w,
        "which",
    ) || same_chars(w, "will") || same_chars(w, "would") || same_chars(w, "about") || same_chars(
        w,
        "into",
    )
}

/// Number of Turkish letters in `s`.
pub open spec fn turkish_letter_count(s: Seq<char>) -> nat
    decreases s.len(),
{
    if s.len() == 0 {
        0
    } else {
        turkish_letter_count(s.drop_last()) + if is_turkish_letter(s.last()) {
            1nat
        } else {
            0nat
        }
    }
}

/// Number of Turkish function words among `ws`.
pub open spec fn turkish_word_count(ws: Seq<Seq<char>>) -> nat
    decreases ws.len(),
{
    if ws.len() == 0 {
        0
    } else {
        turkish_word_count(ws.drop_last()) + if is_turkish_word(ws.last()) {
            1nat
        } else {
            0nat
        }
    }
}

/// Number of English function words among `ws`.
pub open spec fn english_word_count(ws: Seq<Seq<char>>) -> nat
    decreases ws.len(),
{
    if ws.len() == 0 {
        0
    } else {
        english_word_count(ws.drop_last()) + if is_english_word(ws.last()) {
            1nat
        } else {
            0nat
        }
    }
}

/// The language guess for text whose lower-cased characters are `clean`:
/// English only when fewer than two Turkish letters occur and English function
/// words outnumber Turkish ones; Turkish otherwise.
pub open spec fn language_of_clean(clean: Seq<char>) -> Seq<char> {
    let ws = words_of(clean);
    if turkish_letter_count(clean) >= 2 || turkish_word_count(ws) > english_word_count(ws) {
        "tr"@
    } else if english_word_count(ws) > turkish_word_count(ws) {
        "en"@
    } else {
        "tr"@
    }
}

/// Guesses the language of already lower-cased text.
pub fn detect_language_lowered(clean: &str) -> (r: String)
    ensures
        r@ == language_of_clean(clean@),
{
    let cv = chars_of(clean);
    let mut tr_count: usize = 0;
    let mut i: usize = 0;
    while i < cv.len()
        invariant
            i <= cv.len(),
            tr_count as nat == turkish_letter_count(cv@.take(i as int)),
            tr_count <= i,
        decreases cv.len() - i,
    {
        assert(cv@.take(i as int + 1).drop_last() == cv@.take(i as int));
        if turkish_letter(cv[i]) {
            tr_count += 1;
        }
        i += 1;
    }
    assert(cv@.take(cv.len() as int) == cv@);
    let ws = split_words(&cv);
    let ghost wsv = ws.deep_view();
    let mut tr_words: usize = 0;
    let mut en_words: usize = 0;
    let mut k: usize = 0;
    while k < ws.len()
        invariant
            k <= ws.len(),
            wsv == ws.deep_view(),
            tr_words as nat == turkish_word_count(wsv.take(k as int)),
            en_words as nat == english_word_count(wsv.take(k as int)),
            tr_words <= k,
            en_words <= k,
        decreases ws.len() - k,
    {
        assert(wsv.take(k as int + 1).drop_last() == wsv.take(k as int));
        assert(wsv[k as int] == ws[k as int]@);
        if turkish_word(&ws[k]) {
            tr_words += 1;
        }
        if english_word(&ws[k]) {
            en_words += 1;
        }
        k += 1;
    }
    assert(wsv.take(ws.len() as int) == wsv);
    if tr_count >= 2 || tr_words > en_words {
        "tr".to_string()
    } else if en_words > tr_words {
        "en".to_string()
    } else {
        "tr".to_string()
    }
}

/// Guesses whether `text` is Turkish ("tr") or English ("en").
pub fn detect_language(text: &str) -> (r: String)
    ensures
        r@ == language_of_clean(lowercase_of(text@)),
{
    let clean = to_lowercase(text);
    detect_language_lowered(clean.as_str())
}

/// Every word of the English list counts as an English function word and none
/// of them as a Turkish one.
pub proof fn lemma_english_function_words()
    ensures
        is_english_word("the"@) && !is_turkish_word("the"@),
        is_english_word("and"@) && !is_turkish_word("and"@),
        is_english_word("for"@) && !is_turkish_word("for"@),
        is_english_word("are"@) && !is_turkish_word("are"@),
        is_english_word("but"@) && !is_turkish_word("but"@),
        is_english_word("not"@) && !is_turkish_word("not"@),
        is_english_word("you"@) && !is_turkish_word("you"@),
        is_english_word("all"@) && !is_turkish_word("all"@),
        is_english_word("can"@) && !is_turkish_word("can"@),
        is_english_word("had"@) && !is_turkish_word("had"@),
        is_english_word("her"@) && !is_turkish_word("her"@),
        is_english_word("was"@) && !is_turkish_word("was"@),
        is_english_word("one"@) && !is_turkish_word("one"@),
        is_english_word("our"@) && !is_turkish_word("our"@),
        is_english_word("out"@) && !is_turkish_word("out"@),
        is_english_word("has"@) && !is_turkish_word("has"@),
        is_english_word("have"@) && !is_turkish_word("have"@),
        is_english_word("been"@) && !is_turkish_word("been"@),
        is_english_word("some"@) && !is_turkish_word("some"@),
        is_english_word("them"@) && !is_turkish_word("them"@),
        is_english_word("than"@) && !is_turkish_word("than"@),
        is_english_word("what"@) && !is_turkish_word("what"@),
        is_english_word("when"@) && !is_turkish_word("when"@),
        is_english_word("which"@) && !is_turkish_word("which"@),
        is_english_word("will"@) && !is_turkish_word("will"@),
        is_english_word("would"@) && !is_turkish_word("would"@),
        is_english_word("about"@) && !is_turkish_word("about"@),
        is_english_word("into"@) && !is_turkish_word("into"@),
{
    reveal_strlit("bir");
    assert("bir"@.len() == 3);
    reveal_strlit("bu");
    assert("bu"@.len() == 2);
    reveal_strlit("ve");
    assert("ve"@.len() == 2);
    reveal_strlit("ile");
    assert("ile"@.len() == 3);
    reveal_strlit("için");
    assert("için"@.len() == 4);
    reveal_strlit("ama");
    assert("ama"@.len() == 3);
    reveal_strlit("veya");
    assert("veya"@.len() == 4);
    reveal_strlit("gibi");
    assert("gibi"@.len() == 4);
    reveal_strlit("kadar");
    assert("kadar"@.len() == 5);
    reveal_strlit("sonra");
    assert("sonra"@.len() == 5);
    reveal_strlit("önce");
    assert("önce"@.len() == 4);
    reveal_strlit("üzerinde");
    assert("üzerinde"@.len() == 8);
    reveal_strlit("arasında");
    assert("arasında"@.len() == 8);
    reveal_strlit("altında");
    assert("altında"@.len() == 7);
    reveal_strlit("yaklaşık");
    assert("yaklaşık"@.len() == 8);
    reveal_strlit("hem");
    assert("hem"@.len() == 3);
    reveal_strlit("ya da");
    assert("ya da"@.len() == 5);
    reveal_strlit("çünkü");
    assert("çünkü"@.len() == 5);
    reveal_strlit("ancak");
    assert("ancak"@.len() == 5);
    reveal_strlit("fakat");
    assert("fakat"@.len() == 5);
    reveal_strlit("değil");
    assert("değil"@.len() == 5);
    reveal_strlit("çok");
    assert("çok"@.len() == 3);
    reveal_strlit("az");
    assert("az"@.len() == 2);
    reveal_strlit("büyük");
    assert("büyük"@.len() == 5);
    assert(!is_turkish_word("the"@)) by {
        reveal_strlit("the");
        assert("the"@.len() == 3);
        assert("the"@[0] != "bir"@[0]);
        assert("the"@[0] != "ile"@[0]);
        assert("the"@[0] != "ama"@[0]);
        assert("the"@[0] != "hem"@[0]);
        assert("the"@[0] != "çok"@[0]);
    }
    assert(!is_turkish_word("and"@)) by {
        reveal_strlit("and");
        assert("and"@.len() == 3);
        assert("and"@[0] != "bir"@[0]);
        assert("and"@[0] != "ile"@[0]);
        assert("and"@[1] != "ama"@[1]);
        assert("and"@[0] != "hem"@[0]);
        assert("and"@[0] != "çok"@[0]);
    }
    assert(!is_turkish_word("for"@)) by {
        reveal_strlit("for");
        assert("for"@.len() == 3);
        assert("for"@[0] != "bir"@[0]);
        assert("for"@[0] != "ile"@[0]);
        assert("for"@[0] != "ama"@[0]);
        assert("for"@[0] != "hem"@[0]);
        assert("for"@[0] != "çok"@[0]);
    }
    assert(!is_turkish_word("are"@)) by {
        reveal_strlit("are");
        assert("are"@.len() == 3);
        assert("are"@[0] != "bir"@[0]);
        assert("are"@[0] != "ile"@[0]);
        assert("are"@[1] != "ama"@[1]);
        assert("are"@[0] != "hem"@[0]);
        assert("are"@[0] != "çok"@[0]);
    }
    assert(!is_turkish_word("but"@)) by {
        reveal_strlit("but");
        assert("but"@.len() == 3);
        assert("but"@[1] != "bir"@[1]);
        assert("but"@[0] != "ile"@[0]);
        assert("but"@[0] != "ama"@[0]);
        assert("but"@[0] != "hem"@[0]);
        assert("but"@[0] != "çok"@[0]);
    }
    assert(!is_turkish_word("not"@)) by {
        reveal_strlit("not");
        assert("not"@.len() == 3);
        assert("not"@[0] != "bir"@[0]);
        assert("not"@[0] != "ile"@[0]);
        assert("not"@[0] != "ama"@[0]);
        assert("not"@[0] != "hem"@[0]);
        assert("not"@[0] != "çok"@[0]);
    }
    assert(!is_turkish_word("you"@)) by {
        reveal_strlit("you");
        assert("you"@.len() == 3);
        assert("you"@[0] != "bir"@[0]);
        assert("you"@[0] != "ile"@[0]);
        assert("you"@[0] != "ama"@[0]);
        assert("you"@[0] != "hem"@[0]);
        assert("you"@[0] != "çok"@[0]);
    }
    assert(!is_turkish_word("all"@)) by {
        reveal_strlit("all");
        assert("all"@.len() == 3);
        assert("all"@[0] != "bir"@[0]);
        assert("all"@[0] != "ile"@[0]);
        assert("all"@[1] != "ama"@[1]);
        assert("all"@[0] != "hem"@[0]);
        assert("all"@[0] != "çok"@[0]);
    }
    assert(!is_turkish_word("can"@)) by {
        reveal_strlit("can");
        assert("can"@.len() == 3);
        assert("can"@[0] != "bir"@[0]);
        assert("can"@[0] != "ile"@[0]);
        assert("can"@[0] != "ama"@[0]);
        assert("can"@[0] != "hem"@[0]);
        assert("can"@[0] != "çok"@[0]);
    }
    assert(!is_turkish_word("had"@)) by {
        reveal_strlit("had");
        assert("had"@.len() == 3);
        assert("had"@[0] != "bir"@[0]);
        assert("had"@[0] != "ile"@[0]);
        assert("had"@[0] != "ama"@[0]);
        assert("had"@[1] != "hem"@[1]);
        assert("had"@[0] != "çok"@[0]);
    }
    assert(!is_turkish_word("her"@)) by {
        reveal_strlit("her");
        assert("her"@.len() == 3);
        assert("her"@[0] != "bir"@[0]);
        assert("her"@[0] != "ile"@[0]);
        assert("her"@[0] != "ama"@[0]);
        assert("her"@[2] != "hem"@[2]);
        assert("her"@[0] != "çok"@[0]);
    }
    assert(!is_turkish_word("was"@)) by {
        reveal_strlit("was");
        assert("was"@.len() == 3);
        assert("was"@[0] != "bir"@[0]);
        assert("was"@[0] != "ile"@[0]);
        assert("was"@[0] != "ama"@[0]);
        assert("was"@[0] != "hem"@[0]);
        assert("was"@[0] != "çok"@[0]);
    }
    assert(!is_turkish_word("one"@)) by {
        reveal_strlit("one");
        assert("one"@.len() == 3);
        assert("one"@[0] != "bir"@[0]);
        assert("one"@[0] != "ile"@[0]);
        assert("one"@[0] != "ama"@[0]);
        assert("one"@[0] != "hem"@[0]);
        assert("one"@[0] != "çok"@[0]);
    }
    assert(!is_turkish_word("our"@)) by {
        reveal_strlit("our");
        assert("our"@.len() == 3);
        assert("our"@[0] != "bir"@[0]);
        assert("our"@[0] != "ile"@[0]);
        assert("our"@[0] != "ama"@[0]);
        assert("our"@[0] != "hem"@[0]);
        assert("our"@[0] != "çok"@[0]);
    }
    assert(!is_turkish_word("out"@)) by {
        reveal_strlit("out");
        assert("out"@.len() == 3);
        assert("out"@[0] != "bir"@[0]);
        assert("out"@[0] != "ile"@[0]);
        assert("out"@[0] != "ama"@[0]);
        assert("out"@[0] != "hem"@[0]);
        assert("out"@[0] != "çok"@[0]);
    }
    assert(!is_turkish_word("has"@)) by {
        reveal_strlit("has");
        assert("has"@.len() == 3);
        assert("has"@[0] != "bir"@[0]);
        assert("has"@[0] != "ile"@[0]);
        assert("has"@[0] != "ama"@[0]);
        assert("has"@[1] != "hem"@[1]);
        assert("has"@[0] != "çok"@[0]);
    }
    assert(!is_turkish_word("have"@)) by {
        reveal_strlit("have");
        assert("have"@.len() == 4);
        assert("have"@[0] != "için"@[0]);
        assert("have"@[0] != "veya"@[0]);
        assert("have"@[0] != "gibi"@[0]);
        assert("have"@[0] != "önce"@[0]);
    }
    assert(!is_turkish_word("been"@)) by {
        reveal_strlit("been");
        assert("been"@.len() == 4);
        assert("been"@[0] != "için"@[0]);
        assert("been"@[0] != "veya"@[0]);
        assert("been"@[0] != "gibi"@[0]);
        assert("been"@[0] != "önce"@[0]);
    }
    assert(!is_turkish_word("some"@)) by {
        reveal_strlit("some");
        assert("some"@.len() == 4);
        assert("some"@[0] != "için"@[0]);
        assert("some"@[0] != "veya"@[0]);
        assert("some"@[0] != "gibi"@[0]);
        assert("some"@[0] != "önce"@[0]);
    }
    assert(!is_turkish_word("them"@)) by {
        reveal_strlit("them");
        assert("them"@.len() == 4);
        assert("them"@[0] != "için"@[0]);
        assert("them"@[0] != "veya"@[0]);
        assert("them"@[0] != "gibi"@[0]);
        assert("them"@[0] != "önce"@[0]);
    }
    assert(!is_turkish_word("than"@)) by {
        reveal_strlit("than");
        assert("than"@.len() == 4);
        assert("than"@[0] != "için"@[0]);
        assert("than"@[0] != "veya"@[0]);
        assert("than"@[0] != "gibi"@[0]);
        assert("than"@[0] != "önce"@[0]);
    }
    assert(!is_turkish_word("what"@)) by {
        reveal_strlit("what");
        assert("what"@.len() == 4);
        assert("what"@[0] != "için"@[0]);
        assert("what"@[0] != "veya"@[0]);
        assert("what"@[0] != "gibi"@[0]);
        assert("what"@[0] != "önce"@[0]);
    }
    assert(!is_turkish_word("when"@)) by {
        reveal_strlit("when");
        assert("when"@.len() == 4);
        assert("when"@[0] != "için"@[0]);
        assert("when"@[0] != "veya"@[0]);
        assert("when"@[0] != "gibi"@[0]);
        assert("when"@[0] != "önce"@[0]);
    }
    assert(!is_turkish_word("which"@)) by {
        reveal_strlit("which");
        assert("which"@.len() == 5);
        assert("which"@[0] != "kadar"@[0]);
        assert("which"@[0] != "sonra"@[0]);
        assert("which"@[0] != "ya da"@[0]);
        assert("which"@[0] != "çünkü"@[0]);
        assert("which"@[0] != "ancak"@[0]);
        assert("which"@[0] != "fakat"@[0]);
        assert("which"@[0] != "değil"@[0]);
        assert("which"@[0] != "büyük"@[0]);
    }
    assert(!is_turkish_word("will"@)) by {
        reveal_strlit("will");
        assert("will"@.len() == 4);
        assert("will"@[0] != "için"@[0]);
        assert("will"@[0] != "veya"@[0]);
        assert("will"@[0] != "gibi"@[0]);
        assert("will"@[0] != "önce"@[0]);
    }
    assert(!is_turkish_word("would"@)) by {
        reveal_strlit("would");
        assert("would"@.len() == 5);
        assert("would"@[0] != "kadar"@[0]);
        assert("would"@[0] != "sonra"@[0]);
        assert("would"@[0] != "ya da"@[0]);
        assert("would"@[0] != "çünkü"@[0]);
        assert("would"@[0] != "ancak"@[0]);
        assert("would"@[0] != "fakat"@[0]);
        assert("would"@[0] != "değil"@[0]);
        assert("would"@[0] != "büyük"@[0]);
    }
    assert(!is_turkish_word("about"@)) by {
        reveal_strlit("about");
        assert("about"@.len() == 5);
        assert("about"@[0] != "kadar"@[0]);
        assert("about"@[0] != "sonra"@[0]);
        assert("about"@[0] != "ya da"@[0]);
        assert("about"@[0] != "çünkü"@[0]);
        assert("about"@[1] != "ancak"@[1]);
        assert("about"@[0] != "fakat"@[0]);
        assert("about"@[0] != "değil"@[0]);
        assert("about"@[0] != "büyük"@[0]);
    }
    assert(!is_turkish_word("into"@)) by {
        reveal_strlit("into");
        assert("into"@.len() == 4);
        assert("into"@[1] != "için"@[1]);
        assert("into"@[0] != "veya"@[0]);
        assert("into"@[0] != "gibi"@[0]);
        assert("into"@[0] != "önce"@[0]);
    }
}

/// Counting Turkish function words finds none when no word is one.
proof fn lemma_no_turkish_words(ws: Seq<Seq<char>>)
    requires
        forall|i: int| 0 <= i < ws.len() ==> !is_turkish_word(#[trigger] ws[i]),
    ensures
        turkish_word_count(ws) == 0,
    decreases ws.len(),
{
    if ws.len() > 0 {
        assert(!is_turkish_word(ws[ws.len() - 1]));
        lemma_no_turkish_words(ws.drop_last());
    }
}

/// Counting English function words finds one when some word is one.
proof fn lemma_some_english_word(ws: Seq<Seq<char>>, k: int)
    requires
        0 <= k < ws.len(),
        is_english_word(ws[k]),
    ensures
        english_word_count(ws) > 0,
    decreases ws.len(),
{
    if k < ws.len() - 1 {
        lemma_some_english_word(ws.drop_last(), k);
    }
}

/// Text with fewer than two Turkish letters, with at least one English function
/// word and no Turkish function word among its words, is English.
pub proof fn lemma_english_detected(clean: Seq<char>, k: int)
    requires
        turkish_letter_count(clean) < 2,
        0 <= k < words_of(clean).len(),
        is_english_word(words_of(clean)[k]),
        forall|i: int| 0 <= i < words_of(clean).len() ==> !is_turkish_word(#[trigger] words_of(clean)[i]),
    ensures
        language_of_clean(clean) == "en"@,
{
    lemma_no_turkish_words(words_of(clean));
    lemma_some_english_word(words_of(clean), k);
}

} // verus!
