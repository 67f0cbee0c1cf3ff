//! Clipboard history: captures are deduplicated against the capture before
//! them, kept newest first, and dropped by count and by age whenever a new one
//! arrives.

use vstd::prelude::*;
use crate::clock::current_timestamp;
use crate::error::{ErrorModel, ModuleError, OsOutcome};
use crate::module::{Module, ShutdownReport, StartupReport, StoredHistory};
use crate::settings::{SettingModel, SettingValue, Settings};
use crate::text::{
    contains_subseq, contains_text, lowercase_of, str_eq, string_views, to_lowercase,
};

verus! {

/// One captured clipboard content.
#[derive(Debug, PartialEq, Eq)]
pub struct ClipboardItem {
    /// Derived from the capture time: two captures within one second share it.
    pub id: u64,
    pub content: String,
    pub content_type: String,
    /// Capture time, in seconds since the Unix epoch.
    pub timestamp: i64,
    pub preview: String,
}

/// What a `ClipboardItem` stands for.
pub struct ItemModel {
    pub id: u64,
    pub content: Seq<char>,
    pub content_type: Seq<char>,
    pub timestamp: i64,
    pub preview: Seq<char>,
}

impl View for ClipboardItem {
    type V = ItemModel;

    open spec fn view(&self) -> ItemModel {
        ItemModel {
            id: self.id,
            content: self.content@,
            content_type: self.content_type@,
            timestamp: self.timestamp,
            preview: self.preview@,
        }
    }
}

/// The models of a run of items.
pub open spec fn item_models(items: Seq<ClipboardItem>) -> Seq<ItemModel> {
    items.map_values(|item: ClipboardItem| item@)
}

/// The number of characters that a preview shows of a longer content.
pub const PREVIEW_CHARS: usize = 100;

/// Seconds in a day.
pub const SECONDS_PER_DAY: i64 = 86400;

/// The preview of a content: the content itself, or its first hundred
/// characters and three dots where it is longer than that.
pub open spec fn preview_of(content: Seq<char>) -> Seq<char> {
    if content.len() > PREVIEW_CHARS {
        content.subrange(0, PREVIEW_CHARS as int) + seq!['.', '.', '.']
    } else {
        content
    }
}

/// The item that a capture of `content` at time `now` makes.
pub open spec fn captured(content: Seq<char>, content_type: Seq<char>, now: i64) -> ItemModel {
    ItemModel { id: now as u64, content, content_type, timestamp: now, preview: preview_of(content) }
}

impl ClipboardItem {
    /// The item for a capture made at the present moment.
    pub fn new(content: String, content_type: String) -> (r: ClipboardItem)
        ensures
            exists|now: i64| r@ == #[trigger] captured(content@, content_type@, now),
    {
        let now = current_timestamp();
        ClipboardItem::captured_at(content, content_type, now)
    }

    /// The item for a capture made at time `now`.
    pub fn captured_at(content: String, content_type: String, now: i64) -> (r: ClipboardItem)
        ensures
            r@ == captured(content@, content_type@, now),
    {
        let preview = if content.as_str().unicode_len() > PREVIEW_CHARS {
            let head = content.as_str().substring_char(0, PREVIEW_CHARS);
            proof {
                reveal_strlit("...");
                assert("..."@ =~= seq!['.', '.', '.']);
            }
            String::from_str(head).concat("...")
        } else {
            content.clone()
        };
        ClipboardItem { id: now as u64, content, content_type, timestamp: now, preview }
    }

    /// A copy of the item.
    pub fn duplicate(&self) -> (r: ClipboardItem)
        ensures
            r@ == self@,
    {
        ClipboardItem {
            id: self.id,
            content: self.content.clone(),
            content_type: self.content_type.clone(),
            timestamp: self.timestamp,
            preview: self.preview.clone(),
        }
    }
}

impl Clone for ClipboardItem {
    fn clone(&self) -> (r: ClipboardItem)
        ensures
            r@ == self@,
    {
        self.duplicate()
    }
}

/// A copy of a run of items.
pub fn duplicate_items(items: &Vec<ClipboardItem>) -> (r: Vec<ClipboardItem>)
    ensures
        item_models(r@) == item_models(items@),
{
    let mut out: Vec<ClipboardItem> = Vec::new();
    let mut i: usize = 0;
    while i < items.len()
        invariant
            i <= items.len(),
            out@.len() == i,
            forall|j: int| 0 <= j < i ==> (#[trigger] out@[j])@ == items@[j]@,
        decreases items.len() - i,
    {
        out.push(items[i].duplicate());
        i += 1;
    }
    assert(item_models(out@) =~= item_models(items@));
    out
}

/// The first `max` items, or all of them where there are no more than that.
pub open spec fn bounded(items: Seq<ItemModel>, max: usize) -> Seq<ItemModel> {
    if items.len() > max {
        items.take(max as int)
    } else {
        items
    }
}

/// The items captured at `cutoff` or later, in their order.
pub open spec fn fresh(items: Seq<ItemModel>, cutoff: int) -> Seq<ItemModel> {
    items.filter(|item: ItemModel| item.timestamp >= cutoff)
}

/// The first item with the given id.
pub open spec fn first_with_id(items: Seq<ItemModel>, id: u64) -> Option<ItemModel>
    decreases items.len(),
{
    if items.len() == 0 {
        None
    } else if items.first().id == id {
        Some(items.first())
    } else {
        first_with_id(items.drop_first(), id)
    }
}

/// Whether a content matches a query: its lowercase form holds the query's.
pub open spec fn matches_query(content: Seq<char>, query: Seq<char>) -> bool {
    contains_subseq(lowercase_of(content), lowercase_of(query))
}

/// The items whose key, the text at the item's position in `keys`, holds
/// `needle`; an item without a key is left out.
pub open spec fn picked(items: Seq<ItemModel>, keys: Seq<Seq<char>>, needle: Seq<char>) -> Seq<
    ItemModel,
>
    decreases items.len(),
{
    if items.len() == 0 {
        Seq::empty()
    } else {
        let rest = picked(items.drop_last(), keys, needle);
        if items.len() <= keys.len() && contains_subseq(keys[items.len() - 1], needle) {
            rest.push(items.last())
        } else {
            rest
        }
    }
}

/// The state of a clipboard history.
pub struct HistoryModel {
    pub enabled: bool,
    /// Whether a handle to the system clipboard is held.
    pub monitoring: bool,
    pub max_items: usize,
    pub expiry_days: u32,
    /// The items, newest first.
    pub items: Seq<ItemModel>,
    /// The content of the latest capture that was taken in, if any was.
    pub last_content: Option<Seq<char>>,
}

impl HistoryModel {
    /// The state of a new history.
    pub open spec fn initial() -> HistoryModel {
        HistoryModel {
            enabled: false,
            monitoring: false,
            max_items: 200,
            expiry_days: 30,
            items: Seq::empty(),
            last_content: None,
        }
    }

    /// The moment before which an item is too old at time `now`; an item
    /// captured at this very moment is not.
    pub open spec fn cutoff(self, now: i64) -> int {
        now - self.expiry_days * SECONDS_PER_DAY
    }

    /// The state after a capture of `content` at time `now`. A capture equal to
    /// the one before it changes nothing. Any other goes to the front; then
    /// the items beyond `max_items` leave, then those captured before the
    /// cutoff.
    pub open spec fn after_add(
        self,
        content: Seq<char>,
        content_type: Seq<char>,
        now: i64,
    ) -> HistoryModel {
        if self.last_content == Some(content) {
            self
        } else {
            HistoryModel {
                items: fresh(
                    bounded(seq![captured(content, content_type, now)] + self.items, self.max_items),
                    self.cutoff(now),
                ),
                last_content: Some(content),
                ..self
            }
        }
    }

    /// The state after the system clipboard was read at time `now`: a text
    /// that is not empty is a capture of type `text`, provided a clipboard
    /// handle is held, and anything else changes nothing.
    pub open spec fn after_check(self, text: Option<String>, now: i64) -> HistoryModel {
        match text {
            Some(t) if self.monitoring && t@.len() > 0 => self.after_add(t@, "text"@, now),
            _ => self,
        }
    }

    /// The items whose content matches `query`, in their order.
    pub open spec fn search(self, query: Seq<char>) -> Seq<ItemModel> {
        self.items.filter(|item: ItemModel| matches_query(item.content, query))
    }

    /// The settings that the history reports.
    pub open spec fn settings(self) -> Map<Seq<char>, SettingModel> {
        Map::<Seq<char>, SettingModel>::empty().insert(
            "max_items"@,
            SettingModel::Unsigned(self.max_items as u64),
        ).insert("expiry_days"@, SettingModel::Unsigned(self.expiry_days as u64))
    }

    /// The state after `settings` were merged in: a key takes effect where its
    /// value is a non-negative integer, which is cut to the width of the field.
    pub open spec fn after_update(self, settings: Map<Seq<char>, SettingModel>) -> HistoryModel {
        HistoryModel {
            max_items: if settings.contains_key("max_items"@) && settings["max_items"@].as_u64()
                is Some {
                settings["max_items"@].as_u64()->0 as usize
            } else {
                self.max_items
            },
            expiry_days: if settings.contains_key("expiry_days"@)
                && settings["expiry_days"@].as_u64() is Some {
                settings["expiry_days"@].as_u64()->0 as u32
            } else {
                self.expiry_days
            },
            ..self
        }
    }
}

/// The clipboard history module.
#[derive(Debug)]
pub struct ClipboardHistory {
    enabled: bool,
    max_items: usize,
    expiry_days: u32,
    history: Vec<ClipboardItem>,
    monitoring: bool,
    last_content: Option<String>,
}

impl View for ClipboardHistory {
    type V = HistoryModel;

    closed spec fn view(&self) -> HistoryModel {
        HistoryModel {
            enabled: self.enabled,
            monitoring: self.monitoring,
            max_items: self.max_items,
            expiry_days: self.expiry_days,
            items: item_models(self.history@),
            last_content: match self.last_content {
                Some(content) => Some(content@),
                None => None,
            },
        }
    }
}

/// The items of `items` captured at `cutoff` or later.
fn retain_fresh(items: &Vec<ClipboardItem>, cutoff: i128) -> (r: Vec<ClipboardItem>)
    ensures
        item_models(r@) == fresh(item_models(items@), cutoff as int),
{
    let mut out: Vec<ClipboardItem> = Vec::new();
    let mut i: usize = 0;
    let ghost models = item_models(items@);
    proof {
        reveal(Seq::filter);
        assert(models.take(0) =~= Seq::<ItemModel>::empty());
        assert(item_models(out@) =~= Seq::<ItemModel>::empty());
    }
    while i < items.len()
        invariant
            i <= items.len(),
            models == item_models(items@),
            item_models(out@) == fresh(models.take(i as int), cutoff as int),
        decreases items.len() - i,
    {
        let ghost before = out@;
        if items[i].timestamp as i128 >= cutoff {
            out.push(items[i].duplicate());
            assert(item_models(out@) =~= item_models(before).push(items@[i as int]@));
        }
        proof {
            reveal(Seq::filter);
            assert(models.take(i + 1).drop_last() =~= models.take(i as int));
            assert(models.take(i + 1).last() == items@[i as int]@);
        }
        i += 1;
    }
    assert(models.take(i as int) =~= models);
    out
}

/// Choosing by lowercase keys is searching by query.
pub proof fn lemma_picked_is_search(items: Seq<ItemModel>, keys: Seq<Seq<char>>, query: Seq<char>)
    requires
        items.len() <= keys.len(),
        forall|i: int| 0 <= i < items.len() ==> #[trigger] keys[i] == lowercase_of(items[i].content),
    ensures
        picked(items, keys, lowercase_of(query)) == items.filter(
            |item: ItemModel| matches_query(item.content, query),
        ),
    decreases items.len(),
{
    reveal(Seq::filter);
    if items.len() > 0 {
        lemma_picked_is_search(items.drop_last(), keys, query);
        assert(keys[items.len() - 1] == lowercase_of(items.last().content));
    }
}

/// The items whose key holds `needle`, in their order. The key of an item is
/// the text at the item's position in `keys`; an item without one is left out.
pub fn select_matching(items: &Vec<ClipboardItem>, keys: &Vec<String>, needle: &str) -> (r: Vec<
    ClipboardItem,
>)
    ensures
        item_models(r@) == picked(
            item_models(items@),
            string_views(keys@),
            needle@,
        ),
{
    let mut out: Vec<ClipboardItem> = Vec::new();
    let mut i: usize = 0;
    let ghost models = item_models(items@);
    let ghost key_models = string_views(keys@);
    proof {
        assert(models.take(0) =~= Seq::<ItemModel>::empty());
        assert(item_models(out@) =~= Seq::<ItemModel>::empty());
    }
    while i < items.len()
        invariant
            i <= items.len(),
            models == item_models(items@),
            key_models == string_views(keys@),
            item_models(out@) == picked(models.take(i as int), key_models, needle@),
        decreases items.len() - i,
    {
        let ghost before = out@;
        if i < keys.len() && contains_text(keys[i].as_str(), needle) {
            out.push(items[i].duplicate());
            assert(item_models(out@) =~= item_models(before).push(items@[i as int]@));
        }
        proof {
            assert(models.take(i + 1).drop_last() =~= models.take(i as int));
            assert(models.take(i + 1).last() == items@[i as int]@);
        }
        i += 1;
    }
    assert(models.take(i as int) =~= models);
    out
}

impl ClipboardHistory {
    /// A history that is switched off, holds nothing, keeps at most 200 items
    /// and none older than 30 days.
    pub fn new() -> (r: ClipboardHistory)
        ensures
            r@ == HistoryModel::initial(),
    {
        let r = ClipboardHistory {
            enabled: false,
            max_items: 200,
            expiry_days: 30,
            history: Vec::new(),
            monitoring: false,
            last_content: None,
        };
        assert(r@.items =~= Seq::<ItemModel>::empty());
        r
    }

    /// The items, newest first.
    pub fn get_history(&self) -> (r: Result<Vec<ClipboardItem>, ModuleError>)
        ensures
            r matches Ok(items) && item_models(items@) == self@.items,
    {
        Ok(duplicate_items(&self.history))
    }

    /// Takes in a capture made at the present moment.
    pub fn add_item(&mut self, content: String, content_type: String) -> (r: Result<
        (),
        ModuleError,
    >)
        ensures
            r is Ok,
            exists|now: i64|
                final(self)@ == #[trigger] old(self)@.after_add(content@, content_type@, now),
    {
        let now = current_timestamp();
        self.add_item_at(content, content_type, now)
    }

    /// Takes in a capture made at time `now`.
    pub fn add_item_at(&mut self, content: String, content_type: String, now: i64) -> (r: Result<
        (),
        ModuleError,
    >)
        ensures
            r is Ok,
            final(self)@ == old(self)@.after_add(content@, content_type@, now),
            old(self)@.last_content != Some(content@) ==> final(self)@.items.len() <= old(
                self,
            )@.max_items,
            old(self)@.last_content != Some(content@) ==> forall|i: int|
                0 <= i < final(self)@.items.len() ==> (#[trigger] final(self)@.items[i]).timestamp
                    >= old(self)@.cutoff(now),
    {
        let repeated = match &self.last_content {
            Some(last) => str_eq(last.as_str(), content.as_str()),
            None => false,
        };
        if repeated {
            return Ok(());
        }
        self.last_content = Some(content.clone());
        let item = ClipboardItem::captured_at(content, content_type, now);
        let ghost grown = seq![item@] + old(self)@.items;
        self.history.insert(0, item);
        assert(item_models(self.history@) =~= grown);
        if self.history.len() > self.max_items {
            self.history.truncate(self.max_items);
            assert(item_models(self.history@) =~= grown.take(self.max_items as int));
        }
        assert(item_models(self.history@) == bounded(grown, self.max_items));
        let cutoff: i128 = now as i128 - (self.expiry_days as i128) * (SECONDS_PER_DAY as i128);
        self.history = retain_fresh(&self.history, cutoff);
        proof {
            bounded(grown, self.max_items).lemma_filter_len(
                |item: ItemModel| item.timestamp >= cutoff as int,
            );
            assert forall|i: int| 0 <= i < self@.items.len() implies (#[trigger] self@.items[i]).timestamp
                >= cutoff by {
                bounded(grown, self.max_items).lemma_filter_pred(
                    |item: ItemModel| item.timestamp >= cutoff as int,
                    i,
                );
            }
        }
        Ok(())
    }

    /// Empties the history. The latest content is still remembered, and
    /// nothing is written to storage.
    pub fn clear_history(&mut self) -> (r: Result<(), ModuleError>)
        ensures
            r is Ok,
            final(self)@ == (HistoryModel { items: Seq::empty(), ..old(self)@ }),
    {
        self.history.clear();
        assert(self@.items =~= Seq::<ItemModel>::empty());
        Ok(())
    }

    /// The first item with the given id.
    pub fn get_item(&self, id: u64) -> (r: Result<Option<ClipboardItem>, ModuleError>)
        ensures
            r matches Ok(found) && match found {
                Some(item) => first_with_id(self@.items, id) == Some(item@),
                None => first_with_id(self@.items, id) is None,
            },
    {
        let mut i: usize = 0;
        let ghost models = self@.items;
        assert(models.skip(0) =~= models);
        while i < self.history.len()
            invariant
                i <= self.history.len(),
                models == item_models(self.history@),
                first_with_id(models, id) == first_with_id(models.skip(i as int), id),
            decreases self.history.len() - i,
        {
            if self.history[i].id == id {
                return Ok(Some(self.history[i].duplicate()));
            }
            assert(models.skip(i as int).drop_first() =~= models.skip(i + 1));
            i += 1;
        }
        Ok(None)
    }

    /// The text to put on the system clipboard for the item with the given id:
    /// its content, where such an item exists and a clipboard handle is held.
    /// Where this gives `None`, nothing is to be done, and that is no error.
    pub fn copy_to_clipboard(&self, id: u64) -> (r: Result<Option<String>, ModuleError>)
        ensures
            r matches Ok(text) && match text {
                Some(t) => self@.monitoring && first_with_id(self@.items, id) is Some
                    && first_with_id(self@.items, id)->0.content == t@,
                None => !self@.monitoring || first_with_id(self@.items, id) is None,
            },
    {
        match self.get_item(id) {
            Ok(Some(item)) => {
                if self.monitoring {
                    Ok(Some(item.content))
                } else {
                    Ok(None)
                }
            },
            Ok(None) => Ok(None),
            Err(e) => Err(e),
        }
    }

    /// The items whose content holds `query`, letter case aside, newest first.
    pub fn search_history(&self, query: &str) -> (r: Result<Vec<ClipboardItem>, ModuleError>)
        ensures
            r matches Ok(found) && item_models(found@) == self@.search(query@),
    {
        let needle = to_lowercase(query);
        let mut keys: Vec<String> = Vec::new();
        let mut i: usize = 0;
        while i < self.history.len()
            invariant
                i <= self.history.len(),
                keys@.len() == i,
                forall|j: int|
                    0 <= j < i ==> (#[trigger] keys@[j])@ == lowercase_of(self.history@[j].content@),
            decreases self.history.len() - i,
        {
            keys.push(to_lowercase(self.history[i].content.as_str()));
            i += 1;
        }
        proof {
            lemma_picked_is_search(self@.items, string_views(keys@), query@);
        }
        Ok(select_matching(&self.history, &keys, needle.as_str()))
    }

    /// Whether a handle to the system clipboard is held.
    pub fn is_monitoring(&self) -> (r: bool)
        ensures
            r == self@.monitoring,
    {
        self.monitoring
    }

    /// Records how acquiring the system clipboard went.
    pub fn start_monitoring(&mut self, acquired: OsOutcome) -> (r: Result<(), ModuleError>)
        ensures
            match acquired {
                OsOutcome::Done => r is Ok && final(self)@ == (HistoryModel {
                    monitoring: true,
                    ..old(self)@
                }),
                OsOutcome::Failed(text) => r matches Err(e) && e@ == ErrorModel::OsError(text@)
                    && final(self)@ == old(self)@,
            },
    {
        match acquired {
            OsOutcome::Done => {
                self.monitoring = true;
                Ok(())
            },
            OsOutcome::Failed(text) => Err(ModuleError::OsError(text)),
        }
    }

    /// Records that the system clipboard was let go.
    pub fn stop_monitoring(&mut self)
        ensures
            final(self)@ == (HistoryModel { monitoring: false, ..old(self)@ }),
    {
        self.monitoring = false;
    }

    /// Takes in what was read from the system clipboard: `None` where it was
    /// empty, held no text or could not be read. Nothing happens unless a
    /// clipboard handle is held and the text is not empty; else the text is a
    /// capture made at the present moment.
    pub fn check_clipboard(&mut self, text: Option<String>) -> (r: Result<(), ModuleError>)
        ensures
            r is Ok,
            exists|now: i64| final(self)@ == #[trigger] old(self)@.after_check(text, now),
    {
        let now = current_timestamp();
        self.check_clipboard_at(text, now)
    }

    /// Takes in what was read from the system clipboard at time `now`.
    pub fn check_clipboard_at(&mut self, text: Option<String>, now: i64) -> (r: Result<
        (),
        ModuleError,
    >)
        ensures
            r is Ok,
            final(self)@ == old(self)@.after_check(text, now),
    {
        if self.monitoring {
            match text {
                Some(t) => {
                    if !t.as_str().is_empty() {
                        return self.add_item_at(t, String::from_str("text"), now);
                    }
                },
                None => {},
            }
        }
        Ok(())
    }

    /// Whether the history was written to storage, as an error or none. The
    /// history itself is as `get_history` gives it.
    pub fn save_to_disk(&self, written: OsOutcome) -> (r: Result<(), ModuleError>)
        ensures
            match written {
                OsOutcome::Done => r is Ok,
                OsOutcome::Failed(text) => r matches Err(e) && e@ == ErrorModel::PersistenceError(
                    text@,
                ),
            },
    {
        match written {
            OsOutcome::Done => Ok(()),
            OsOutcome::Failed(text) => Err(ModuleError::PersistenceError(text)),
        }
    }

    /// Takes over what storage held: the stored items replace the history,
    /// nothing stored leaves it alone, and storage that could not be read is an
    /// error that leaves it alone too.
    pub fn load_from_disk(&mut self, stored: StoredHistory) -> (r: Result<(), ModuleError>)
        ensures
            final(self)@ == old(self)@.after_load(stored),
            match stored {
                StoredHistory::Unreadable(text) => r matches Err(e) && e@
                    == ErrorModel::PersistenceError(text@),
                _ => r is Ok,
            },
    {
        match stored {
            StoredHistory::Absent => Ok(()),
            StoredHistory::Loaded(items) => {
                self.history = items;
                Ok(())
            },
            StoredHistory::Unreadable(text) => Err(ModuleError::PersistenceError(text)),
        }
    }
}

impl HistoryModel {
    /// The state after the module was switched on: stored items, where there
    /// were any to read, replace the history, and a clipboard handle is held
    /// where one could be had.
    pub open spec fn after_enable(self, stored: StoredHistory, clipboard: OsOutcome) -> HistoryModel {
        HistoryModel {
            enabled: true,
            items: match stored {
                StoredHistory::Loaded(items) => item_models(items@),
                _ => self.items,
            },
            monitoring: self.monitoring || clipboard is Done,
            ..self
        }
    }

    /// The state after storage was read on request: stored items replace the
    /// history, and anything else leaves it alone.
    pub open spec fn after_load(self, stored: StoredHistory) -> HistoryModel {
        match stored {
            StoredHistory::Loaded(items) => HistoryModel { items: item_models(items@), ..self },
            _ => self,
        }
    }

    /// The state after the module was switched off: the clipboard handle is
    /// let go unless the history could not be saved.
    pub open spec fn after_disable(self, saved: OsOutcome) -> HistoryModel {
        HistoryModel { enabled: false, monitoring: self.monitoring && saved is Failed, ..self }
    }
}

impl Module for ClipboardHistory {
    open spec fn module_name(&self) -> Seq<char> {
        "clipboard_history"@
    }

    open spec fn summary(&self) -> Seq<char> {
        "Persistent history with search and quick paste"@
    }

    open spec fn enabled(&self) -> bool {
        self@.enabled
    }

    open spec fn settings(&self) -> Map<Seq<char>, SettingModel> {
        self@.settings()
    }

    fn name(&self) -> (r: &'static str) {
        "clipboard_history"
    }

    fn description(&self) -> (r: &'static str) {
        "Persistent history with search and quick paste"
    }

    fn is_enabled(&self) -> (r: bool) {
        self.enabled
    }

    /// Switches the history on. Storage that could not be read is passed
    /// over; a clipboard that could not be had is an error.
    fn enable(&mut self, report: StartupReport) -> (r: Result<(), ModuleError>)
        ensures
            final(self)@ == old(self)@.after_enable(report.stored_history, report.clipboard),
            match report.clipboard {
                OsOutcome::Done => r is Ok,
                OsOutcome::Failed(text) => r matches Err(e) && e@ == ErrorModel::OsError(text@),
            },
    {
        self.enabled = true;
        let _ = self.load_from_disk(report.stored_history);
        self.start_monitoring(report.clipboard)
    }

    /// Switches the history off. Where it could not be saved, that is the
    /// error, and the clipboard handle stays.
    fn disable(&mut self, report: ShutdownReport) -> (r: Result<(), ModuleError>)
        ensures
            final(self)@ == old(self)@.after_disable(report.history_saved),
            match report.history_saved {
                OsOutcome::Done => r is Ok,
                OsOutcome::Failed(text) => r matches Err(e) && e@ == ErrorModel::PersistenceError(
                    text@,
                ),
            },
    {
        self.enabled = false;
        match self.save_to_disk(report.history_saved) {
            Ok(()) => {
                self.stop_monitoring();
                Ok(())
            },
            Err(e) => Err(e),
        }
    }

    fn get_settings(&self) -> (r: Settings) {
        let mut settings = Settings::new();
        settings.insert(String::from_str("max_items"), SettingValue::Unsigned(self.max_items as u64));
        settings.insert(
            String::from_str("expiry_days"),
            SettingValue::Unsigned(self.expiry_days as u64),
        );
        settings
    }

    /// Merges `settings` in: `max_items` and `expiry_days` take effect where
    /// their value is a non-negative integer; everything else is passed over.
    fn update_settings(&mut self, settings: Settings) -> (r: Result<(), ModuleError>)
        ensures
            final(self)@ == old(self)@.after_update(settings@),
    {
        proof {
            lemma_setting_keys_differ();
        }
        match settings.get("max_items") {
            Some(value) => {
                match value.as_u64() {
                    Some(n) => {
                        self.max_items = n as usize;
                    },
                    None => {},
                }
            },
            None => {},
        }
        match settings.get("expiry_days") {
            Some(value) => {
                match value.as_u64() {
                    Some(n) => {
                        self.expiry_days = n as u32;
                    },
                    None => {},
                }
            },
            None => {},
        }
        proof {
            let before = old(self)@.settings();
            let after = self@.settings();
            assert forall|key: Seq<char>| !settings@.contains_key(key) implies (
            #[trigger] after.contains_key(key) <==> before.contains_key(key)) by {}
            assert forall|key: Seq<char>|
                !settings@.contains_key(key) && before.contains_key(key) implies #[trigger] after[key]
                == before[key] by {}
        }
        Ok(())
    }
}

/// The two setting keys are different texts.
proof fn lemma_setting_keys_differ()
    ensures
        "max_items"@ != "expiry_days"@,
{
    reveal_strlit("max_items");
    reveal_strlit("expiry_days");
    assert("max_items"@.len() == 9);
    assert("expiry_days"@.len() == 11);
}

/// Settings under keys that the history does not know change nothing.
pub proof fn lemma_unknown_keys_change_nothing(
    state: HistoryModel,
    settings: Map<Seq<char>, SettingModel>,
)
    requires
        !settings.contains_key("max_items"@),
        !settings.contains_key("expiry_days"@),
    ensures
        state.after_update(settings) == state,
{
}

/// What `get_history` gives is what `load_from_disk` takes: a history that is
/// loaded from its own items, kept in whatever way keeps them as they are, is
/// the history that it was.
pub proof fn lemma_reload_restores_history(state: HistoryModel, saved: Vec<ClipboardItem>)
    requires
        item_models(saved@) == state.items,
    ensures
        state.after_load(StoredHistory::Loaded(saved)) == state,
{
}

/// A capture repeated right away changes nothing: of captures with the same
/// content in immediate succession, only the first can be taken in.
pub proof fn lemma_repeated_capture_is_dropped(
    state: HistoryModel,
    content: Seq<char>,
    first_type: Seq<char>,
    first_time: i64,
    second_type: Seq<char>,
    second_time: i64,
)
    ensures
        state.after_add(content, first_type, first_time).after_add(
            content,
            second_type,
            second_time,
        ) == state.after_add(content, first_type, first_time),
{
}

/// Only the capture just before counts as a repetition: a content that differs
/// from it goes to the front even where an older item has the same content,
/// provided there is room for an item.
pub proof fn lemma_capture_goes_first(
    state: HistoryModel,
    content: Seq<char>,
    content_type: Seq<char>,
    now: i64,
)
    requires
        state.last_content != Some(content),
        state.max_items > 0,
    ensures
        state.after_add(content, content_type, now).items.len() > 0,
        state.after_add(content, content_type, now).items[0] == captured(content, content_type, now),
{
    let item = captured(content, content_type, now);
    let grown = seq![item] + state.items;
    let kept = bounded(grown, state.max_items);
    let pred = |it: ItemModel| it.timestamp >= state.cutoff(now);
    assert(kept.len() > 0 && kept[0] == item);
    assert(pred(item));
    lemma_filter_keeps_first(kept, pred);
}

/// Filtering keeps a first element that passes in first place.
proof fn lemma_filter_keeps_first(items: Seq<ItemModel>, pred: spec_fn(ItemModel) -> bool)
    requires
        items.len() > 0,
        pred(items[0]),
    ensures
        items.filter(pred).len() > 0,
        items.filter(pred)[0] == items[0],
    decreases items.len(),
{
    reveal(Seq::filter);
    if items.len() == 1 {
        assert(items.drop_last().filter(pred) =~= Seq::<ItemModel>::empty());
    } else {
        lemma_filter_keeps_first(items.drop_last(), pred);
    }
}

/// After a capture was taken in, the history holds no more than `max_items`
/// items and none captured before the cutoff of that moment.
pub proof fn lemma_capture_respects_bounds(
    state: HistoryModel,
    content: Seq<char>,
    content_type: Seq<char>,
    now: i64,
)
    requires
        state.last_content != Some(content),
    ensures
        state.after_add(content, content_type, now).items.len() <= state.max_items,
        forall|i: int|
            0 <= i < state.after_add(content, content_type, now).items.len() ==> (
            #[trigger] state.after_add(content, content_type, now).items[i]).timestamp
                >= state.cutoff(now),
{
    let kept = bounded(seq![captured(content, content_type, now)] + state.items, state.max_items);
    let pred = |it: ItemModel| it.timestamp >= state.cutoff(now);
    kept.lemma_filter_len(pred);
    assert forall|i: int| 0 <= i < kept.filter(pred).len() implies (#[trigger] kept.filter(
        pred,
    )[i]).timestamp >= state.cutoff(now) by {
        kept.lemma_filter_pred(pred, i);
    }
}

/// The positions of the items that pass `pred`, in rising order.
pub open spec fn kept_positions(items: Seq<ItemModel>, pred: spec_fn(ItemModel) -> bool) -> Seq<int>
    decreases items.len(),
{
    if items.len() == 0 {
        Seq::empty()
    } else {
        let rest = kept_positions(items.drop_last(), pred);
        if pred(items.last()) {
            rest.push(items.len() - 1)
        } else {
            rest
        }
    }
}

/// Filtering keeps the items at the kept positions, which rise strictly: what
/// stood before another item still stands before it.
proof fn lemma_filter_keeps_order(items: Seq<ItemModel>, pred: spec_fn(ItemModel) -> bool)
    ensures
        kept_positions(items, pred).len() == items.filter(pred).len(),
        forall|k: int|
            0 <= k < kept_positions(items, pred).len() ==> 0 <= (#[trigger] kept_positions(
                items,
                pred,
            )[k]) < items.len() && items[kept_positions(items, pred)[k]] == items.filter(pred)[k],
        forall|k1: int, k2: int|
            0 <= k1 < k2 < kept_positions(items, pred).len() ==> (#[trigger] kept_positions(
                items,
                pred,
            )[k1]) < (#[trigger] kept_positions(items, pred)[k2]),
    decreases items.len(),
{
    reveal(Seq::filter);
    if items.len() > 0 {
        lemma_filter_keeps_order(items.drop_last(), pred);
    }
}

/// A search gives exactly the items of the history that match the query, in
/// the order in which the history holds them: the found items are those at
/// the kept positions, which rise strictly, and every matching item is found.
pub proof fn lemma_search_is_ordered_subset(state: HistoryModel, query: Seq<char>)
    ensures
        ({
            let found = state.search(query);
            let at = kept_positions(
                state.items,
                |item: ItemModel| matches_query(item.content, query),
            );
            &&& at.len() == found.len()
            &&& forall|k: int|
                0 <= k < found.len() ==> 0 <= (#[trigger] at[k]) < state.items.len()
                    && state.items[at[k]] == found[k] && matches_query(found[k].content, query)
            &&& forall|k1: int, k2: int|
                0 <= k1 < k2 < found.len() ==> (#[trigger] at[k1]) < (#[trigger] at[k2])
            &&& forall|i: int|
                0 <= i < state.items.len() && matches_query(state.items[i].content, query)
                    ==> found.contains(#[trigger] state.items[i])
        }),
{
    let pred = |item: ItemModel| matches_query(item.content, query);
    let found = state.search(query);
    let at = kept_positions(state.items, pred);
    lemma_filter_keeps_order(state.items, pred);
    assert forall|k: int| 0 <= k < found.len() implies 0 <= (#[trigger] at[k]) < state.items.len()
        && state.items[at[k]] == found[k] && matches_query(found[k].content, query) by {
        state.items.lemma_filter_pred(pred, k);
    }
    assert forall|i: int|
        0 <= i < state.items.len() && matches_query(
            state.items[i].content,
            query,
        ) implies found.contains(#[trigger] state.items[i]) by {
        state.items.lemma_filter_contains(pred, i);
    }
}

} // verus!
