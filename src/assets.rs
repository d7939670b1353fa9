use vstd::prelude::*;

verus! {

#[derive(Clone, Copy, Debug, PartialEq, Eq, Structural)]
pub enum AssetError {
    NotFound,
    DecodeFailure,
    SchemaMismatch,
}

/// A decoded image uploaded to the GPU.
#[derive(Clone, Copy, Debug, PartialEq, Eq, Structural)]
pub struct TextureInfo {
    pub handle: u64,
    pub width: u32,
    pub height: u32,
}

/// A decoded sound held by the audio engine.
#[derive(Clone, Copy, Debug, PartialEq, Eq, Structural)]
pub struct SoundInfo {
    pub handle: u64,
    pub frames: u64,
}

/// A loaded font.
#[derive(Clone, Copy, Debug, PartialEq, Eq, Structural)]
pub struct FontInfo {
    pub handle: u64,
    pub size: u32,
}

/// Animation metadata of a sprite sheet: how many frames, each shown how long.
#[derive(Clone, Copy, Debug, PartialEq, Eq, Structural)]
pub struct SheetInfo {
    pub frame_count: u32,
    pub frame_ns: u64,
}

/// Per-instance playback position in a sprite sheet.
#[derive(Clone, Copy, Debug, PartialEq, Eq, Structural)]
pub struct Playback {
    pub frame: u32,
    pub elapsed_ns: u64,
    pub looping: bool,
}

/// A sprite: the shared image and animation metadata, with a playback position of
/// its own. A copy shares what was decoded and moves on independently.
#[derive(Clone, Copy, Debug, PartialEq, Eq, Structural)]
pub struct Sprite {
    pub texture: TextureInfo,
    pub sheet: SheetInfo,
    pub playback: Playback,
}

pub open spec fn playback_start() -> Playback {
    Playback { frame: 0, elapsed_ns: 0, looping: false }
}

/// One part of a sprite load: the resource cached under `key`, or else what
/// its decoder gave (`d`).
pub open spec fn part_of(m: Map<Seq<char>, AssetView>, key: Seq<char>, d: Result<Asset, AssetError>) -> Result<
    AssetView,
    AssetError,
> {
    if m.contains_key(key) {
        Ok(m[key])
    } else {
        match d {
            Ok(a) => Ok(a@),
            Err(e) => Err(e),
        }
    }
}

/// Decodes needed to have `key` in the cache: none if it is there already.
pub open spec fn decode_cost(m: Map<Seq<char>, AssetView>, key: Seq<char>) -> nat {
    if m.contains_key(key) {
        0
    } else {
        1
    }
}

/// What a sprite load of `ik` (the image) and `sk` (the animation metadata) does,
/// where `d1` and `d2` are what the two decoders give when they run. A part that
/// is not cached is decoded; the first failure is returned, and a part of the
/// wrong kind (the image not a texture, the metadata not a sheet, or both under
/// one path) gives `SchemaMismatch`. On any failure the cache is left as it was;
/// on success both parts are cached and the sprite starts at its first frame.
/// Each part that was not cached is decoded once, and only as far as the load got.
pub open spec fn sprite_outcome<F, H>(
    before: AssetStore,
    after: AssetStore,
    ik: Seq<char>,
    sk: Seq<char>,
    fi: F,
    fs: H,
    d1: Result<Asset, AssetError>,
    d2: Result<Asset, AssetError>,
    r: Result<Sprite, AssetError>,
) -> bool where F: FnOnce() -> Result<Asset, AssetError>, H: FnOnce() -> Result<Asset, AssetError> {
    let m = before.assets();
    let one = decode_cost(m, ik);
    let both = decode_cost(m, ik) + decode_cost(m, sk);
    &&& !m.contains_key(ik) ==> fi.ensures((), d1)
    &&& match part_of(m, ik, d1) {
        Err(e) => r == Err::<Sprite, AssetError>(e) && after.assets() == m && after.decodes()
            == before.decodes() + one,
        Ok(AssetView::Texture(t)) => if sk == ik {
            r == Err::<Sprite, AssetError>(AssetError::SchemaMismatch) && after.assets() == m
                && after.decodes() == before.decodes() + one
        } else {
            &&& !m.contains_key(sk) ==> fs.ensures((), d2)
            &&& after.decodes() == before.decodes() + both
            &&& match part_of(m, sk, d2) {
                Err(e) => r == Err::<Sprite, AssetError>(e) && after.assets() == m,
                Ok(AssetView::Sheet(sh)) => r == Ok::<Sprite, AssetError>(
                    Sprite { texture: t, sheet: sh, playback: playback_start() },
                ) && after.assets() == m.insert(ik, AssetView::Texture(t)).insert(
                    sk,
                    AssetView::Sheet(sh),
                ),
                Ok(_) => r == Err::<Sprite, AssetError>(AssetError::SchemaMismatch)
                    && after.assets() == m,
            }
        },
        Ok(_) => r == Err::<Sprite, AssetError>(AssetError::SchemaMismatch) && after.assets() == m
            && after.decodes() == before.decodes() + one,
    }
}

/// A decoded resource.
#[derive(Debug)]
pub enum Asset {
    Texture(TextureInfo),
    Sound(SoundInfo),
    Bytes(Vec<u8>),
    Font(FontInfo),
    Sheet(SheetInfo),
}

/// What a decoded resource holds.
pub ghost enum AssetView {
    Texture(TextureInfo),
    Sound(SoundInfo),
    Bytes(Seq<u8>),
    Font(FontInfo),
    Sheet(SheetInfo),
}

impl View for Asset {
    type V = AssetView;

    open spec fn view(&self) -> AssetView {
        match self {
            Asset::Texture(t) => AssetView::Texture(*t),
            Asset::Sound(s) => AssetView::Sound(*s),
            Asset::Bytes(b) => AssetView::Bytes(b@),
            Asset::Font(f) => AssetView::Font(*f),
            Asset::Sheet(m) => AssetView::Sheet(*m),
        }
    }
}

impl Asset {
    /// A copy of this resource with the same contents.
    pub fn duplicate(&self) -> (r: Asset)
        ensures
            r@ == self@,
    {
        match self {
            Asset::Texture(t) => Asset::Texture(*t),
            Asset::Sound(s) => Asset::Sound(*s),
            Asset::Bytes(b) => {
                let c = b.clone();
                assert(c@ =~= b@);
                Asset::Bytes(c)
            },
            Asset::Font(f) => Asset::Font(*f),
            Asset::Sheet(m) => Asset::Sheet(*m),
        }
    }
}

struct AssetRecord {
    key: String,
    payload: Asset,
}

/// What a load of `key` through `decode` does: a cached resource comes back as it
/// is, with nothing decoded; otherwise the decoder runs once, and what it gives is
/// returned and, if it is a resource, cached.
pub open spec fn load_outcome<F: FnOnce() -> Result<Asset, AssetError>>(
    before: AssetStore,
    after: AssetStore,
    key: Seq<char>,
    decode: F,
    r: Result<Asset, AssetError>,
) -> bool {
    &&& before.assets().contains_key(key) ==> {
        &&& r matches Ok(a) && a@ == before.assets()[key]
        &&& after.assets() == before.assets()
        &&& after.decodes() == before.decodes()
    }
    &&& !before.assets().contains_key(key) ==> {
        &&& after.decodes() == before.decodes() + 1
        &&& exists|d: Result<Asset, AssetError>|
            #![trigger decode.ensures((), d)]
            decode.ensures((), d) && match d {
                Ok(a) => r matches Ok(b) && b@ == a@ && after.assets() == before.assets().insert(
                    key,
                    a@,
                ),
                Err(e) => r == Err::<Asset, AssetError>(e) && after.assets() == before.assets(),
            }
    }
}

/// Loading the same path twice gives the same resource both times and runs a
/// decoder at most once, provided the first load succeeded.
pub proof fn lemma_load_twice_decodes_once<F, G>(
    s0: AssetStore,
    s1: AssetStore,
    s2: AssetStore,
    key: Seq<char>,
    f: F,
    g: G,
    r1: Result<Asset, AssetError>,
    r2: Result<Asset, AssetError>,
) where F: FnOnce() -> Result<Asset, AssetError>, G: FnOnce() -> Result<Asset, AssetError>
    requires
        load_outcome(s0, s1, key, f, r1),
        load_outcome(s1, s2, key, g, r2),
        r1 is Ok,
    ensures
        r2 matches Ok(b) && b@ == r1->Ok_0@,
        s2.assets() == s1.assets(),
        s2.decodes() <= s0.decodes() + 1,
{
    assert(s1.assets().contains_key(key));
}

/// Cache of decoded resources by logical path, with the roots that loads read
/// from and saves write to.
pub struct AssetStore {
    asset_root: String,
    user_data_root: String,
    records: Vec<AssetRecord>,
    decodes: Ghost<nat>,
}

impl AssetStore {
    #[verifier::type_invariant]
    spec fn wf(&self) -> bool {
        forall|i: int, j: int|
            0 <= i < j < self.records@.len() ==> self.records@[i].key@ != self.records@[j].key@
    }

    /// The cached resources by logical path.
    pub closed spec fn assets(&self) -> Map<Seq<char>, AssetView> {
        Map::new(
            |k: Seq<char>| exists|i: int| 0 <= i < self.records@.len() && self.records@[i].key@ == k,
            |k: Seq<char>|
                self.records@[choose|i: int|
                    0 <= i < self.records@.len() && self.records@[i].key@ == k].payload@,
        )
    }

    /// How many times a decoder has been run on behalf of this store.
    pub closed spec fn decodes(&self) -> nat {
        self.decodes@
    }

    pub closed spec fn asset_root(&self) -> Seq<char> {
        self.asset_root@
    }

    pub closed spec fn user_data_root(&self) -> Seq<char> {
        self.user_data_root@
    }

    proof fn lemma_asset_at(&self, i: int)
        requires
            self.wf(),
            0 <= i < self.records@.len(),
        ensures
            self.assets().contains_key(self.records@[i].key@),
            self.assets()[self.records@[i].key@] == self.records@[i].payload@,
    {
        let k = self.records@[i].key@;
        let j = choose|j: int| 0 <= j < self.records@.len() && self.records@[j].key@ == k;
        assert(i == j);
    }

    pub fn new(asset_root: String, user_data_root: String) -> (r: AssetStore)
        ensures
            r.assets() == Map::<Seq<char>, AssetView>::empty(),
            r.decodes() == 0,
            r.asset_root() == asset_root@,
            r.user_data_root() == user_data_root@,
    {
        let r = AssetStore { asset_root, user_data_root, records: Vec::new(), decodes: Ghost(0) };
        assert(r.assets() =~= Map::<Seq<char>, AssetView>::empty());
        r
    }

    fn find(&self, key: &String) -> (r: Option<usize>)
        ensures
            r matches Some(i) ==> i < self.records@.len() && self.records@[i as int].key@ == key@,
            r is None ==> !self.assets().contains_key(key@),
    {
        let mut i: usize = 0;
        while i < self.records.len()
            invariant
                i <= self.records@.len(),
                forall|j: int| 0 <= j < i ==> self.records@[j].key@ != key@,
            decreases self.records@.len() - i,
        {
            if self.records[i].key == *key {
                return Some(i);
            }
            i = i + 1;
        }
        None
    }

    /// Caches `a` under a key that holds nothing yet.
    fn insert_new(&mut self, k: String, a: Asset)
        requires
            !old(self).assets().contains_key(k@),
        ensures
            final(self).assets() == old(self).assets().insert(k@, a@),
            final(self).decodes() == old(self).decodes(),
            final(self).asset_root() == old(self).asset_root(),
            final(self).user_data_root() == old(self).user_data_root(),
    {
        proof {
            use_type_invariant(&*self);
        }
        let ghost before = self.assets();
        let ghost key = k@;
        let ghost view = a@;
        let mut records: Vec<AssetRecord> = Vec::new();
        std::mem::swap(&mut records, &mut self.records);
        records.push(AssetRecord { key: k, payload: a });
        proof {
            let last = records@.len() - 1;
            assert forall|x: int| 0 <= x < last implies #[trigger] records@[x]
                == old(self).records@[x] by {}
            assert forall|x: int, y: int|
                0 <= x < y < records@.len() implies records@[x].key@ != records@[y].key@ by {
                if y == last {
                    assert(old(self).records@[x].key@ == records@[x].key@);
                    if records@[x].key@ == key {
                        assert(old(self).assets().contains_key(key));
                    }
                }
            }
        }
        self.records = records;
        proof {
            let last = self.records@.len() - 1;
            let target = before.insert(key, view);
            assert(self.records@[last].key@ == key);
            assert forall|n: Seq<char>| #[trigger] target.contains_key(n) implies self.assets().contains_key(n) by {
                if n != key {
                    let j = choose|j: int| 0 <= j < old(self).records@.len() && old(self).records@[j].key@ == n;
                    assert(self.records@[j].key@ == n);
                }
            }
            assert forall|n: Seq<char>| #[trigger] self.assets().contains_key(n) implies target.contains_key(n) by {
                let j = choose|j: int| 0 <= j < self.records@.len() && self.records@[j].key@ == n;
                if j < last {
                    assert(old(self).records@[j].key@ == n);
                }
            }
            assert forall|n: Seq<char>| #[trigger] self.assets().contains_key(n) implies self.assets()[n] == target[n] by {
                let j = choose|j: int| 0 <= j < self.records@.len() && self.records@[j].key@ == n;
                self.lemma_asset_at(j);
                if n != key {
                    old(self).lemma_asset_at(j);
                }
            }
            assert(self.assets() =~= target);
        }
    }

    /// A copy of the resource cached under `key`, if any.
    pub fn cached(&self, key: &str) -> (r: Option<Asset>)
        ensures
            self.assets().contains_key(key@) ==> (r matches Some(a) && a@ == self.assets()[key@]),
            !self.assets().contains_key(key@) ==> r is None,
    {
        proof {
            use_type_invariant(&*self);
        }
        let k = key.to_owned();
        match self.find(&k) {
            Some(i) => {
                proof {
                    self.lemma_asset_at(i as int);
                }
                Some(self.records[i].payload.duplicate())
            },
            None => None,
        }
    }

    /// Returns the resource cached under `key`; where there is none, runs `decode`
    /// once and caches what it gives. A failed decode caches nothing.
    pub fn load<F: FnOnce() -> Result<Asset, AssetError>>(&mut self, key: &str, decode: F) -> (r:
        Result<Asset, AssetError>)
        requires
            decode.requires(()),
        ensures
            final(self).asset_root() == old(self).asset_root(),
            final(self).user_data_root() == old(self).user_data_root(),
            load_outcome(*old(self), *final(self), key@, decode, r),
    {
        proof {
            use_type_invariant(&*self);
        }
        let k = key.to_owned();
        match self.find(&k) {
            Some(i) => {
                proof {
                    self.lemma_asset_at(i as int);
                }
                Ok(self.records[i].payload.duplicate())
            },
            None => {
                let d = decode();
                proof {
                    self.decodes = Ghost(self.decodes@ + 1);
                }
                match d {
                    Err(e) => Err(e),
                    Ok(a) => {
                        let out = a.duplicate();
                        self.insert_new(k, a);
                        Ok(out)
                    },
                }
            },
        }
    }

    /// Loads a sprite from an image and its animation metadata. Each part comes
    /// from the cache or its decoder; both are checked before anything is cached,
    /// so a failed sprite load caches nothing.
    pub fn load_sprite<F, H>(
        &mut self,
        image_key: &str,
        sheet_key: &str,
        decode_image: F,
        decode_sheet: H,
    ) -> (r: Result<Sprite, AssetError>) where
        F: FnOnce() -> Result<Asset, AssetError>,
        H: FnOnce() -> Result<Asset, AssetError>,

        requires
            decode_image.requires(()),
            decode_sheet.requires(()),
        ensures
            exists|d1: Result<Asset, AssetError>, d2: Result<Asset, AssetError>|
                #![trigger sprite_outcome(*old(self), *final(self), image_key@, sheet_key@, decode_image, decode_sheet, d1, d2, r)]
                sprite_outcome(
                    *old(self),
                    *final(self),
                    image_key@,
                    sheet_key@,
                    decode_image,
                    decode_sheet,
                    d1,
                    d2,
                    r,
                ),
            r is Err ==> final(self).assets() == old(self).assets(),
            final(self).asset_root() == old(self).asset_root(),
            final(self).user_data_root() == old(self).user_data_root(),
    {
        proof {
            use_type_invariant(&*self);
        }
        let ghost s0 = *self;
        let ghost mut d1: Result<Asset, AssetError> = Err(AssetError::NotFound);
        let ghost mut d2: Result<Asset, AssetError> = Err(AssetError::NotFound);
        let ik = image_key.to_owned();
        let sk = sheet_key.to_owned();
        let (image, image_new) = match self.cached(image_key) {
            Some(a) => (a, false),
            None => {
                let d = decode_image();
                proof {
                    d1 = d;
                    self.decodes = Ghost(self.decodes@ + 1);
                }
                match d {
                    Ok(a) => (a, true),
                    Err(e) => {
                        assert(sprite_outcome(s0, *self, image_key@, sheet_key@, decode_image, decode_sheet, d1, d2, Err(e)));
                        return Err(e);
                    },
                }
            },
        };
        let texture = match image {
            Asset::Texture(t) => t,
            _ => {
                assert(sprite_outcome(s0, *self, image_key@, sheet_key@, decode_image, decode_sheet, d1, d2, Err(AssetError::SchemaMismatch)));
                return Err(AssetError::SchemaMismatch);
            },
        };
        if ik == sk {
            assert(sprite_outcome(s0, *self, image_key@, sheet_key@, decode_image, decode_sheet, d1, d2, Err(AssetError::SchemaMismatch)));
            return Err(AssetError::SchemaMismatch);
        }
        let (sheet_asset, sheet_new) = match self.cached(sheet_key) {
            Some(a) => (a, false),
            None => {
                let d = decode_sheet();
                proof {
                    use_type_invariant(&*self);
                    d2 = d;
                    self.decodes = Ghost(self.decodes@ + 1);
                }
                match d {
                    Ok(a) => (a, true),
                    Err(e) => {
                        assert(sprite_outcome(s0, *self, image_key@, sheet_key@, decode_image, decode_sheet, d1, d2, Err(e)));
                        return Err(e);
                    },
                }
            },
        };
        let sheet = match sheet_asset {
            Asset::Sheet(m) => m,
            _ => {
                assert(sprite_outcome(s0, *self, image_key@, sheet_key@, decode_image, decode_sheet, d1, d2, Err(AssetError::SchemaMismatch)));
                return Err(AssetError::SchemaMismatch);
            },
        };
        let ghost m0 = s0.assets();
        if image_new {
            self.insert_new(ik, Asset::Texture(texture));
        }
        assert(self.assets() =~= m0.insert(image_key@, AssetView::Texture(texture)));
        if sheet_new {
            self.insert_new(sk, Asset::Sheet(sheet));
        }
        assert(self.assets() =~= m0.insert(image_key@, AssetView::Texture(texture)).insert(
            sheet_key@,
            AssetView::Sheet(sheet),
        ));
        let r = Sprite {
            texture,
            sheet,
            playback: Playback { frame: 0, elapsed_ns: 0, looping: false },
        };
        assert(sprite_outcome(s0, *self, image_key@, sheet_key@, decode_image, decode_sheet, d1, d2, Ok(r)));
        Ok(r)
    }

    /// Points subsequent loads at another asset folder; what is cached stays.
    pub fn set_asset_folder_root(&mut self, root: String)
        ensures
            final(self).asset_root() == root@,
            final(self).user_data_root() == old(self).user_data_root(),
            final(self).assets() == old(self).assets(),
            final(self).decodes() == old(self).decodes(),
    {
        proof {
            use_type_invariant(&*self);
        }
        self.asset_root = root;
    }

    /// Points subsequent saves at another user data folder.
    pub fn set_user_data_folder_root(&mut self, root: String)
        ensures
            final(self).user_data_root() == root@,
            final(self).asset_root() == old(self).asset_root(),
            final(self).assets() == old(self).assets(),
            final(self).decodes() == old(self).decodes(),
    {
        proof {
            use_type_invariant(&*self);
        }
        self.user_data_root = root;
    }

    pub fn get_asset_folder_root(&self) -> (r: String)
        ensures
            r@ == self.asset_root(),
    {
        self.asset_root.clone()
    }

    pub fn get_user_data_folder_root(&self) -> (r: String)
        ensures
            r@ == self.user_data_root(),
    {
        self.user_data_root.clone()
    }
}

} // verus!
