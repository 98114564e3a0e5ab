//! Everything loaded from the asset directory, kept under names: rooms,
//! the objects of each area, textures, texts, cutscenes and dialogs.

use std::collections::HashMap;
use vstd::prelude::*;
use crate::level::Level;
use crate::store::{lemma_map_of, map_of, names_distinct, Store};
use crate::strings::{before, before_char, same_text};

verus! {

/// What `get_text` answers for a name that has no text.
pub open spec fn error_text() -> Seq<char> {
    "ERROR, STRING NOT FOUND"@
}

/// The text under `key`, or the text saying there is none.
pub open spec fn spec_get_text<T, O, C>(res: &Resources<T, O, C>, key: Seq<char>) -> Seq<char> {
    if res.text_strings@.dom().contains(key) {
        res.text_strings@[key]@
    } else {
        error_text()
    }
}

/// The assets of the game. `T` is a texture, `O` the objects of an area
/// and `C` a cutscene.
pub struct Resources<T, O, C> {
    pub rooms: Store<Level>,
    pub room_objects: Store<O>,
    pub textures: Store<T>,
    pub text_strings: Store<String>,
    pub cutscenes: Store<C>,
    pub npc_dialogs: Store<Vec<String>>,
    pub background_texture: Option<String>,
}

impl<T, O, C> Resources<T, O, C> {
    /// No assets at all.
    pub fn new() -> (r: Self)
        ensures
            r.rooms@ == Map::<Seq<char>, Level>::empty(),
            r.room_objects@ == Map::<Seq<char>, O>::empty(),
            r.textures@ == Map::<Seq<char>, T>::empty(),
            r.text_strings@ == Map::<Seq<char>, String>::empty(),
            r.cutscenes@ == Map::<Seq<char>, C>::empty(),
            r.npc_dialogs@ == Map::<Seq<char>, Vec<String>>::empty(),
            r.background_texture is None,
    {
        Resources {
            rooms: Store::new(),
            room_objects: Store::new(),
            textures: Store::new(),
            background_texture: None,
            text_strings: Store::new(),
            cutscenes: Store::new(),
            npc_dialogs: Store::new(),
        }
    }

    /// The texture named `key`, or the one named `missing` in its place.
    pub fn get_texture(&self, key: &str) -> (r: &T)
        requires
            self.textures@.dom().contains(key@) || self.textures@.dom().contains("missing"@),
        ensures
            self.textures@.dom().contains(key@) ==> *r == self.textures@[key@],
            !self.textures@.dom().contains(key@) ==> *r == self.textures@["missing"@],
    {
        match self.textures.get(key) {
            Some(tex) => tex,
            None => self.textures.get("missing").unwrap(),
        }
    }

    /// The room stored as `key`.
    pub fn get_room(&self, key: &str) -> (r: Option<&Level>)
        ensures
            r matches Some(l) ==> self.rooms@.dom().contains(key@) && *l == self.rooms@[key@],
            r is None ==> !self.rooms@.dom().contains(key@),
    {
        self.rooms.get(key)
    }

    /// The objects of the area `key`.
    pub fn get_room_object(&self, key: &str) -> (r: Option<&O>)
        ensures
            r matches Some(o) ==> self.room_objects@.dom().contains(key@) && *o
                == self.room_objects@[key@],
            r is None ==> !self.room_objects@.dom().contains(key@),
    {
        self.room_objects.get(key)
    }

    /// Keeps a texture under `key`.
    pub fn insert_texture(&mut self, key: String, texture: T)
        ensures
            final(self).textures@ == old(self).textures@.insert(key@, texture),
            final(self).rooms == old(self).rooms,
            final(self).room_objects == old(self).room_objects,
            final(self).text_strings == old(self).text_strings,
            final(self).cutscenes == old(self).cutscenes,
            final(self).npc_dialogs == old(self).npc_dialogs,
            final(self).background_texture == old(self).background_texture,
    {
        self.textures.insert(key, texture);
    }

    /// Keeps a room under `key`.
    pub fn insert_room(&mut self, key: String, level: Level)
        ensures
            final(self).rooms@ == old(self).rooms@.insert(key@, level),
            final(self).textures == old(self).textures,
            final(self).room_objects == old(self).room_objects,
            final(self).text_strings == old(self).text_strings,
            final(self).cutscenes == old(self).cutscenes,
            final(self).npc_dialogs == old(self).npc_dialogs,
            final(self).background_texture == old(self).background_texture,
    {
        self.rooms.insert(key, level);
    }

    /// Keeps the objects of an area under `key`.
    pub fn insert_object(&mut self, key: String, object: O)
        ensures
            final(self).room_objects@ == old(self).room_objects@.insert(key@, object),
            final(self).rooms == old(self).rooms,
            final(self).textures == old(self).textures,
            final(self).text_strings == old(self).text_strings,
            final(self).cutscenes == old(self).cutscenes,
            final(self).npc_dialogs == old(self).npc_dialogs,
            final(self).background_texture == old(self).background_texture,
    {
        self.room_objects.insert(key, object);
    }

    /// Keeps a text under `key`.
    pub fn insert_text(&mut self, key: String, text: String)
        ensures
            final(self).text_strings@ == old(self).text_strings@.insert(key@, text),
            final(self).rooms == old(self).rooms,
            final(self).room_objects == old(self).room_objects,
            final(self).textures == old(self).textures,
            final(self).cutscenes == old(self).cutscenes,
            final(self).npc_dialogs == old(self).npc_dialogs,
            final(self).background_texture == old(self).background_texture,
    {
        self.text_strings.insert(key, text);
    }

    /// The text named `key`, or a text saying that there is none.
    pub fn get_text(&self, key: &str) -> (r: &str)
        ensures
            self.text_strings@.dom().contains(key@) ==> r@ == self.text_strings@[key@]@,
            !self.text_strings@.dom().contains(key@) ==> r@ == error_text(),
    {
        match self.text_strings.get(key) {
            Some(text) => text.as_str(),
            None => "ERROR, STRING NOT FOUND",
        }
    }

    /// Keeps a cutscene under `key`.
    pub fn insert_cutscene(&mut self, key: String, cutscene: C)
        ensures
            final(self).cutscenes@ == old(self).cutscenes@.insert(key@, cutscene),
            final(self).rooms == old(self).rooms,
            final(self).room_objects == old(self).room_objects,
            final(self).textures == old(self).textures,
            final(self).text_strings == old(self).text_strings,
            final(self).npc_dialogs == old(self).npc_dialogs,
            final(self).background_texture == old(self).background_texture,
    {
        self.cutscenes.insert(key, cutscene);
    }

    /// The cutscene named `key`.
    pub fn get_cutscene(&self, key: &str) -> (r: Option<&C>)
        ensures
            r matches Some(c) ==> self.cutscenes@.dom().contains(key@) && *c
                == self.cutscenes@[key@],
            r is None ==> !self.cutscenes@.dom().contains(key@),
    {
        self.cutscenes.get(key)
    }

    /// Keeps the lines of a dialog under `key`.
    pub fn insert_npc_dialog(&mut self, key: String, lines: Vec<String>)
        ensures
            final(self).npc_dialogs@ == old(self).npc_dialogs@.insert(key@, lines),
            final(self).rooms == old(self).rooms,
            final(self).room_objects == old(self).room_objects,
            final(self).textures == old(self).textures,
            final(self).text_strings == old(self).text_strings,
            final(self).cutscenes == old(self).cutscenes,
            final(self).background_texture == old(self).background_texture,
    {
        self.npc_dialogs.insert(key, lines);
    }

    /// The lines of the dialog named `key`.
    pub fn get_npc_dialog(&self, key: &str) -> (r: Option<&Vec<String>>)
        ensures
            r matches Some(d) ==> self.npc_dialogs@.dom().contains(key@) && *d
                == self.npc_dialogs@[key@],
            r is None ==> !self.npc_dialogs@.dom().contains(key@),
    {
        self.npc_dialogs.get(key)
    }
}

/// The text named `key` among the loaded assets, or a text saying that
/// there is none.
pub fn get_text<'a, T, O, C>(res: &'a Resources<T, O, C>, key: &str) -> (r: &'a str)
    ensures
        res.text_strings@.dom().contains(key@) ==> r@ == res.text_strings@[key@]@,
        !res.text_strings@.dom().contains(key@) ==> r@ == error_text(),
{
    res.get_text(key)
}

/// Reading the text of `key` after keeping `text` under it gives `text`;
/// the texts of other names stay as they were.
pub proof fn law_text_read_after_insert<T, O, C>(
    before: Resources<T, O, C>,
    after: Resources<T, O, C>,
    key: String,
    text: String,
    other: Seq<char>,
)
    requires
        after.text_strings@ == before.text_strings@.insert(key@, text),
    ensures
        spec_get_text(&after, key@) == text@,
        other != key@ ==> spec_get_text(&after, other) == spec_get_text(&before, other),
{
}

/// Before any text is loaded, every name reads as the text saying that
/// there is none.
pub proof fn law_no_text_before_loading<T, O, C>(res: Resources<T, O, C>, key: Seq<char>)
    requires
        res.text_strings@ == Map::<Seq<char>, String>::empty(),
    ensures
        spec_get_text(&res, key) == error_text(),
{
}

/// The table of named texts that a game-text file holds: a JSON object
/// whose values are all strings. `None` where the text is no such object.
pub uninterp spec fn game_text_table(text: Seq<char>) -> Option<Map<Seq<char>, Seq<char>>>;

/// Reads a game-text file with `serde_json::from_str` into a
/// `HashMap<String, String>` and hands out its entries. The contract
/// claims that the parse succeeds exactly when the text holds such a
/// table, and that the entries are that table's, each name once; the
/// order of the entries, which follows the hash map, is left unsaid.
#[verifier::external_body]
pub(crate) fn parse_game_text(text: &str) -> (r: Option<Vec<(String, String)>>)
    ensures
        r is Some <==> game_text_table(text@) is Some,
        r matches Some(p) ==> names_distinct(p@),
        r matches Some(p) ==> map_of(p@).dom() == game_text_table(text@).unwrap().dom(),
        r matches Some(p) ==> forall|i: int|
            0 <= i < p@.len() ==> game_text_table(text@).unwrap()[#[trigger] p@[i].0@] == p@[i].1@,
{
    match serde_json::from_str::<HashMap<String, String>>(text) {
        Ok(m) => Some(m.into_iter().collect()),
        Err(_) => None,
    }
}

/// Loads the texts of a game-text file into `res`: each name of the file
/// gets its text, and other names keep theirs. Where the file holds no
/// such table, nothing changes and the result is `false`.
pub fn load_game_text<T, O, C>(res: &mut Resources<T, O, C>, text: &str) -> (r: bool)
    ensures
        r == (game_text_table(text@) is Some),
        !r ==> *final(res) == *old(res),
        r ==> forall|k: Seq<char>|
            #[trigger] final(res).text_strings@.dom().contains(k) <==> (old(res).text_strings@.dom().contains(k)
                || game_text_table(text@).unwrap().dom().contains(k)),
        r ==> forall|k: Seq<char>|
            #[trigger] game_text_table(text@).unwrap().dom().contains(k) ==> final(res).text_strings@[k]@
                == game_text_table(text@).unwrap()[k],
        r ==> forall|k: Seq<char>|
            old(res).text_strings@.dom().contains(k) && !game_text_table(text@).unwrap().dom().contains(k)
                ==> #[trigger] final(res).text_strings@[k] == old(res).text_strings@[k],
        final(res).rooms == old(res).rooms,
        final(res).room_objects == old(res).room_objects,
        final(res).textures == old(res).textures,
        final(res).cutscenes == old(res).cutscenes,
        final(res).npc_dialogs == old(res).npc_dialogs,
        final(res).background_texture == old(res).background_texture,
{
    let pairs = match parse_game_text(text) {
        Some(p) => p,
        None => return false,
    };
    let ghost table = game_text_table(text@).unwrap();
    let ghost before = res.text_strings@;
    let n = pairs.len();
    let mut i: usize = 0;
    while i < n
        invariant
            n == pairs@.len(),
            i <= n,
            names_distinct(pairs@),
            forall|k: Seq<char>|
                #[trigger] res.text_strings@.dom().contains(k) <==> (before.dom().contains(k) || exists|j: int|
                    0 <= j < i && #[trigger] pairs@[j].0@ == k),
            forall|j: int| 0 <= j < i ==> res.text_strings@[#[trigger] pairs@[j].0@]@ == pairs@[j].1@,
            forall|k: Seq<char>|
                before.dom().contains(k) && (forall|j: int| 0 <= j < i ==> #[trigger] pairs@[j].0@ != k)
                    ==> #[trigger] res.text_strings@[k] == before[k],
            res.rooms == old(res).rooms,
            res.room_objects == old(res).room_objects,
            res.textures == old(res).textures,
            res.cutscenes == old(res).cutscenes,
            res.npc_dialogs == old(res).npc_dialogs,
            res.background_texture == old(res).background_texture,
        decreases n - i,
    {
        let (key, value) = (pairs[i].0.clone(), pairs[i].1.clone());
        let ghost prev = res.text_strings@;
        res.insert_text(key, value);
        proof {
            assert(key@ == pairs@[i as int].0@);
            assert forall|j: int| 0 <= j < i + 1 implies res.text_strings@[#[trigger] pairs@[j].0@]@
                == pairs@[j].1@ by {
                if j < i {
                    assert(pairs@[j].0@ != pairs@[i as int].0@);
                }
            }
            assert forall|k: Seq<char>|
                #[trigger] res.text_strings@.dom().contains(k) <==> (before.dom().contains(k) || exists|j: int|
                    0 <= j < i + 1 && #[trigger] pairs@[j].0@ == k) by {
                if k == key@ {
                    assert(pairs@[i as int].0@ == k);
                } else if prev.dom().contains(k) && !before.dom().contains(k) {
                    let j = choose|j: int| 0 <= j < i && #[trigger] pairs@[j].0@ == k;
                    assert(0 <= j < i + 1 && pairs@[j].0@ == k);
                } else if exists|j: int| 0 <= j < i + 1 && #[trigger] pairs@[j].0@ == k {
                    let j = choose|j: int| 0 <= j < i + 1 && #[trigger] pairs@[j].0@ == k;
                    assert(j != i);
                    assert(0 <= j < i && pairs@[j].0@ == k);
                }
            }
            assert forall|k: Seq<char>|
                before.dom().contains(k) && (forall|j: int| 0 <= j < i + 1 ==> #[trigger] pairs@[j].0@ != k)
                    implies #[trigger] res.text_strings@[k] == before[k] by {
                assert(pairs@[i as int].0@ != k);
                assert(forall|j: int| 0 <= j < i ==> #[trigger] pairs@[j].0@ != k);
            }
        }
        i += 1;
    }
    proof {
        assert forall|k: Seq<char>|
            #[trigger] res.text_strings@.dom().contains(k) <==> (before.dom().contains(k)
                || table.dom().contains(k)) by {
            lemma_map_of(pairs@, k);
        }
        assert forall|k: Seq<char>| #[trigger] table.dom().contains(k) implies res.text_strings@[k]@
            == table[k] by {
            lemma_map_of(pairs@, k);
            let j = choose|j: int| 0 <= j < pairs@.len() && #[trigger] pairs@[j].0@ == k;
            assert(res.text_strings@[pairs@[j].0@]@ == pairs@[j].1@);
        }
        assert forall|k: Seq<char>|
            before.dom().contains(k) && !table.dom().contains(k) implies #[trigger] res.text_strings@[k]
            == before[k] by {
            lemma_map_of(pairs@, k);
            assert forall|j: int| 0 <= j < n implies #[trigger] pairs@[j].0@ != k by {
                if pairs@[j].0@ == k {
                    assert(exists|j: int| 0 <= j < pairs@.len() && #[trigger] pairs@[j].0@ == k);
                }
            }
        }
    }
    true
}

/// What a file of the asset directory holds, by its extension.
#[derive(Clone, Copy, PartialEq, Eq, Structural, Debug)]
pub enum AssetKind {
    /// `png`: a texture.
    Texture,
    /// `tmj`: a room's map.
    RoomMap,
    /// `roomobj`: the objects of an area.
    RoomObjects,
    /// `gametext`: named texts.
    GameText,
    /// `cutscene`: a cutscene.
    Cutscene,
    /// Anything else, which is skipped.
    Unsupported,
}

/// The kind of asset that a file extension stands for.
pub open spec fn spec_asset_kind(ext: Seq<char>) -> AssetKind {
    if ext == "png"@ {
        AssetKind::Texture
    } else if ext == "tmj"@ {
        AssetKind::RoomMap
    } else if ext == "roomobj"@ {
        AssetKind::RoomObjects
    } else if ext == "gametext"@ {
        AssetKind::GameText
    } else if ext == "cutscene"@ {
        AssetKind::Cutscene
    } else {
        AssetKind::Unsupported
    }
}

/// The kind of asset that a file with extension `ext` holds.
pub fn asset_kind(ext: &str) -> (r: AssetKind)
    ensures
        r == spec_asset_kind(ext@),
{
    if same_text(ext, "png") {
        AssetKind::Texture
    } else if same_text(ext, "tmj") {
        AssetKind::RoomMap
    } else if same_text(ext, "roomobj") {
        AssetKind::RoomObjects
    } else if same_text(ext, "gametext") {
        AssetKind::GameText
    } else if same_text(ext, "cutscene") {
        AssetKind::Cutscene
    } else {
        AssetKind::Unsupported
    }
}

/// The name a texture is kept under: its file's stem and `.png`.
pub fn texture_key(stem: &str) -> (r: String)
    ensures
        r@ == stem@ + ".png"@,
{
    let mut key = String::from_str(stem);
    key.append(".png");
    key
}

/// The area that a file of objects belongs to: its stem up to the first `_`.
pub fn objects_area(stem: &str) -> (r: &str)
    ensures
        r@ == before(stem@, '_'),
{
    before_char(stem, '_')
}

} // verus!
