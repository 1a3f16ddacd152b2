//! Item images: where they are stored, and which uploads are accepted in
//! which display slots.
use crate::configuration::{path_of, Settings, UploadSettings};
use crate::text::{decimal_text, owned, push_decimal, push_str, str_eq};
use std::path::PathBuf;
use vstd::prelude::*;

verus! {

/// What `Path::join` builds from the path `base` and the text `part`.
pub uninterp spec fn joined(base: PathBuf, part: Seq<char>) -> PathBuf;

/// `Path::join` (std): `base` with `part` adjoined, as `PathBuf::push` does it.
#[verifier::external_body]
fn path_join(base: &PathBuf, part: &str) -> (r: PathBuf)
    ensures
        r == joined(*base, part@),
{
    base.join(part)
}

/// Where images live and which uploads are accepted.
#[derive(Debug)]
pub struct ImageService {
    pub upload_dir: PathBuf,
    pub max_file_size: usize,
    pub max_files_per_item: usize,
    pub allowed_types: Vec<String>,
    pub temp_dir: PathBuf,
}

/// The number of display slots an item has.
pub const DISPLAY_SLOTS: i32 = 5;

/// One file of an upload: its size in bytes, the name it was sent under, and
/// the image type found in its bytes.
#[derive(Debug, Clone)]
pub struct UploadFile {
    pub size: usize,
    pub original_name: String,
    pub mime_type: String,
}

/// Why an upload was refused.
#[derive(Debug, Clone, PartialEq, Eq)]
pub enum UploadError {
    TooManyFiles { requested: usize, existing: usize, max: usize },
    FileTooLarge { name: String, max: usize },
    TypeNotAllowed { mime_type: String, name: String },
    NoDisplayOrderSlot,
}

/// The message of each upload error.
pub open spec fn upload_error_text(e: UploadError) -> Seq<char> {
    match e {
        UploadError::TooManyFiles { requested, existing, max } => "Cannot upload "@ + decimal_text(
            requested as nat,
        ) + " files. Item already has "@ + decimal_text(existing as nat) + " images (max: "@
            + decimal_text(max as nat) + ")"@,
        UploadError::FileTooLarge { name, max } => "File '"@ + name@ + "' exceeds maximum size of "@
            + decimal_text(max as nat) + " bytes"@,
        UploadError::TypeNotAllowed { mime_type, name } => "File type '"@ + mime_type@
            + "' not allowed for file '"@ + name@ + "'"@,
        UploadError::NoDisplayOrderSlot => "No available display order slots"@,
    }
}

impl UploadError {
    /// The error's message.
    pub fn message(&self) -> (r: String)
        ensures
            r@ == upload_error_text(*self),
    {
        match self {
            UploadError::TooManyFiles { requested, existing, max } => {
                let mut m = owned("Cannot upload ");
                push_decimal(&mut m, *requested as u64);
                push_str(&mut m, " files. Item already has ");
                push_decimal(&mut m, *existing as u64);
                push_str(&mut m, " images (max: ");
                push_decimal(&mut m, *max as u64);
                push_str(&mut m, ")");
                m
            },
            UploadError::FileTooLarge { name, max } => {
                let mut m = owned("File '");
                push_str(&mut m, name.as_str());
                push_str(&mut m, "' exceeds maximum size of ");
                push_decimal(&mut m, *max as u64);
                push_str(&mut m, " bytes");
                m
            },
            UploadError::TypeNotAllowed { mime_type, name } => {
                let mut m = owned("File type '");
                push_str(&mut m, mime_type.as_str());
                push_str(&mut m, "' not allowed for file '");
                push_str(&mut m, name.as_str());
                push_str(&mut m, "'");
                m
            },
            UploadError::NoDisplayOrderSlot => owned("No available display order slots"),
        }
    }
}

/// The first display slot, from 1 to 5, that `taken` does not hold.
pub open spec fn first_free_slot(taken: Seq<i32>) -> Option<i32> {
    if exists|k: i32| 1 <= k <= DISPLAY_SLOTS && !taken.contains(k) {
        Some(
            choose|k: i32|
                1 <= k <= DISPLAY_SLOTS && !taken.contains(k) && forall|j: i32|
                    1 <= j < k ==> taken.contains(j),
        )
    } else {
        None
    }
}

/// `t` is among `types`.
pub open spec fn type_listed(types: Seq<String>, t: Seq<char>) -> bool {
    exists|i: int| 0 <= i < types.len() && (#[trigger] types[i])@ == t
}

/// The display slots given to `files`, in order, or the first refusal: a
/// file over the size limit, a type not allowed, or no free slot left.
pub open spec fn slots_for(
    max_file_size: usize,
    allowed: Seq<String>,
    files: Seq<UploadFile>,
    taken: Seq<i32>,
) -> Result<Seq<i32>, UploadError>
    decreases files.len(),
{
    if files.len() == 0 {
        Ok(Seq::empty())
    } else {
        let f = files[0];
        if f.size > max_file_size {
            Err(UploadError::FileTooLarge { name: f.original_name, max: max_file_size })
        } else if !type_listed(allowed, f.mime_type@) {
            Err(UploadError::TypeNotAllowed { mime_type: f.mime_type, name: f.original_name })
        } else {
            match first_free_slot(taken) {
                None => Err(UploadError::NoDisplayOrderSlot),
                Some(slot) => match slots_for(
                    max_file_size,
                    allowed,
                    files.drop_first(),
                    taken.push(slot),
                ) {
                    Ok(rest) => Ok(seq![slot] + rest),
                    Err(e) => Err(e),
                },
            }
        }
    }
}

/// The outcome of uploading `files` to an item that has `current_count`
/// images in the slots `taken`: too many files in all, or the slots of
/// `slots_for`.
pub open spec fn upload_outcome(
    svc: ImageService,
    current_count: usize,
    files: Seq<UploadFile>,
    taken: Seq<i32>,
) -> Result<Seq<i32>, UploadError> {
    if current_count + files.len() > svc.max_files_per_item {
        Err(
            UploadError::TooManyFiles {
                requested: files.len() as usize,
                existing: current_count,
                max: svc.max_files_per_item,
            },
        )
    } else {
        slots_for(svc.max_file_size, svc.allowed_types@, files, taken)
    }
}

fn slot_taken(taken: &Vec<i32>, k: i32) -> (r: bool)
    ensures
        r == taken@.contains(k),
{
    let mut i: usize = 0;
    while i < taken.len()
        invariant
            i <= taken.len(),
            forall|j: int| 0 <= j < i ==> taken@[j] != k,
        decreases taken.len() - i,
    {
        if taken[i] == k {
            assert(taken@[i as int] == k);
            return true;
        }
        i = i + 1;
    }
    false
}

fn clone_texts(v: &Vec<String>) -> (r: Vec<String>)
    ensures
        r@ == v@,
{
    let mut r: Vec<String> = Vec::new();
    let mut i: usize = 0;
    while i < v.len()
        invariant
            i <= v.len(),
            r@ == v@.take(i as int),
        decreases v.len() - i,
    {
        r.push(v[i].clone());
        i = i + 1;
        assert(r@ =~= v@.take(i as int));
    }
    assert(v@.take(v.len() as int) =~= v@);
    r
}

impl ImageService {
    /// A service for the settings' upload directory and limits.
    pub fn new(config: &UploadSettings) -> (s: Self)
        ensures
            s.upload_dir == path_of(config.upload_dir@),
            s.max_file_size == config.max_file_size,
            s.max_files_per_item == config.max_files_per_item,
            s.allowed_types@ == config.allowed_types@,
            s.temp_dir == path_of(config.temp_dir@),
    {
        ImageService {
            upload_dir: config.get_upload_path(),
            max_file_size: config.max_file_size,
            max_files_per_item: config.max_files_per_item,
            allowed_types: clone_texts(&config.allowed_types),
            temp_dir: config.get_temp_path(),
        }
    }

    /// A service for the upload settings of the whole configuration.
    pub fn from_settings(settings: &Settings) -> (s: Self)
        ensures
            s.upload_dir == path_of(settings.uploads.upload_dir@),
            s.max_file_size == settings.uploads.max_file_size,
            s.max_files_per_item == settings.uploads.max_files_per_item,
            s.allowed_types@ == settings.uploads.allowed_types@,
            s.temp_dir == path_of(settings.uploads.temp_dir@),
    {
        Self::new(&settings.uploads)
    }

    /// A service storing under `upload_dir`, with its temporary directory
    /// inside it and the default limits: 10 MiB, 5 files, JPEG, PNG and WebP.
    pub fn new_with_path(upload_dir: PathBuf) -> (s: Self)
        ensures
            s.upload_dir == upload_dir,
            s.max_file_size == 10485760,
            s.max_files_per_item == 5,
            s.allowed_types@.len() == 3,
            s.allowed_types@[0]@ == "image/jpeg"@,
            s.allowed_types@[1]@ == "image/png"@,
            s.allowed_types@[2]@ == "image/webp"@,
            s.temp_dir == joined(upload_dir, "temp"@),
    {
        let default_config = UploadSettings::default();
        let temp_dir = path_join(&upload_dir, "temp");
        ImageService {
            upload_dir,
            max_file_size: default_config.max_file_size,
            max_files_per_item: default_config.max_files_per_item,
            allowed_types: default_config.allowed_types,
            temp_dir,
        }
    }

    /// The first display slot, from 1 to 5, that `existing_orders` leaves
    /// free.
    pub fn get_next_display_order(&self, existing_orders: &Vec<i32>, _current_count: usize) -> (r:
        Result<i32, UploadError>)
        ensures
            match r {
                Ok(k) => first_free_slot(existing_orders@) == Some(k),
                Err(e) => first_free_slot(existing_orders@) is None && e
                    == UploadError::NoDisplayOrderSlot,
            },
    {
        let mut k: i32 = 1;
        while k <= DISPLAY_SLOTS
            invariant
                1 <= k <= DISPLAY_SLOTS + 1,
                forall|j: i32| 1 <= j < k ==> existing_orders@.contains(j),
            decreases DISPLAY_SLOTS + 1 - k,
        {
            if !slot_taken(existing_orders, k) {
                assert(1 <= k <= DISPLAY_SLOTS && !existing_orders@.contains(k) && forall|j: i32|
                    1 <= j < k ==> existing_orders@.contains(j));
                proof {
                    let c = choose|c: i32|
                        1 <= c <= DISPLAY_SLOTS && !existing_orders@.contains(c) && forall|j: i32|
                            1 <= j < c ==> existing_orders@.contains(j);
                    if c < k {
                        assert(existing_orders@.contains(c));
                    }
                    if k < c {
                        assert(existing_orders@.contains(k));
                    }
                }
                return Ok(k);
            }
            k = k + 1;
        }
        Err(UploadError::NoDisplayOrderSlot)
    }

    /// Where the image `filename` of `item_id` is stored:
    /// `upload_dir/items/item_id/filename`.
    pub fn get_image_path(&self, item_id: &str, filename: &str) -> (p: PathBuf)
        ensures
            p == joined(joined(joined(self.upload_dir, "items"@), item_id@), filename@),
    {
        let items = path_join(&self.upload_dir, "items");
        let item_dir = path_join(&items, item_id);
        path_join(&item_dir, filename)
    }

    /// The directory of the images of `item_id`: `upload_dir/items/item_id`.
    pub fn item_dir(&self, item_id: &str) -> (p: PathBuf)
        ensures
            p == joined(joined(self.upload_dir, "items"@), item_id@),
    {
        let items = path_join(&self.upload_dir, "items");
        path_join(&items, item_id)
    }

    /// Whether `mime_type` is one of the allowed types.
    pub fn allows_type(&self, mime_type: &str) -> (r: bool)
        ensures
            r == type_listed(self.allowed_types@, mime_type@),
    {
        let mut i: usize = 0;
        while i < self.allowed_types.len()
            invariant
                i <= self.allowed_types.len(),
                forall|j: int| 0 <= j < i ==> (#[trigger] self.allowed_types@[j])@ != mime_type@,
            decreases self.allowed_types.len() - i,
        {
            if str_eq(self.allowed_types[i].as_str(), mime_type) {
                assert(self.allowed_types@[i as int]@ == mime_type@);
                return true;
            }
            i = i + 1;
        }
        false
    }

    /// Decides an upload of `files` to an item with `current_count` images in
    /// the slots `existing_orders`: refused when the item would hold more
    /// images than allowed, or at the first file that is too large, of a
    /// type not allowed, or finds no free slot; else each file gets the first
    /// free slot in turn.
    pub fn plan_upload(
        &self,
        current_count: usize,
        files: &Vec<UploadFile>,
        existing_orders: &Vec<i32>,
    ) -> (r: Result<Vec<i32>, UploadError>)
        ensures
            match r {
                Ok(slots) => upload_outcome(*self, current_count, files@, existing_orders@) == Ok::<
                    Seq<i32>,
                    UploadError,
                >(slots@),
                Err(e) => upload_outcome(*self, current_count, files@, existing_orders@) == Err::<
                    Seq<i32>,
                    UploadError,
                >(e),
            },
    {
        if current_count > self.max_files_per_item || files.len() > self.max_files_per_item
            - current_count {
            return Err(
                UploadError::TooManyFiles {
                    requested: files.len(),
                    existing: current_count,
                    max: self.max_files_per_item,
                },
            );
        }
        let mut taken: Vec<i32> = Vec::new();
        let mut i: usize = 0;
        while i < existing_orders.len()
            invariant
                i <= existing_orders.len(),
                taken@ == existing_orders@.take(i as int),
            decreases existing_orders.len() - i,
        {
            taken.push(existing_orders[i]);
            i = i + 1;
            assert(taken@ =~= existing_orders@.take(i as int));
        }
        assert(existing_orders@.take(existing_orders.len() as int) =~= existing_orders@);
        let mut slots: Vec<i32> = Vec::new();
        let mut n: usize = 0;
        assert(files@.skip(0) =~= files@);
        while n < files.len()
            invariant
                n <= files.len(),
                current_count + files.len() <= self.max_files_per_item,
                slots_for(self.max_file_size, self.allowed_types@, files@, existing_orders@)
                    == match slots_for(
                    self.max_file_size,
                    self.allowed_types@,
                    files@.skip(n as int),
                    taken@,
                ) {
                    Ok(rest) => Ok::<Seq<i32>, UploadError>(slots@ + rest),
                    Err(e) => Err::<Seq<i32>, UploadError>(e),
                },
            decreases files.len() - n,
        {
            let f = &files[n];
            assert(files@.skip(n as int)[0] == files@[n as int]);
            assert(files@.skip(n as int).drop_first() =~= files@.skip(n + 1));
            if f.size > self.max_file_size {
                return Err(
                    UploadError::FileTooLarge { name: f.original_name.clone(), max: self.max_file_size },
                );
            }
            if !self.allows_type(f.mime_type.as_str()) {
                return Err(
                    UploadError::TypeNotAllowed {
                        mime_type: f.mime_type.clone(),
                        name: f.original_name.clone(),
                    },
                );
            }
            match self.get_next_display_order(&taken, current_count + n) {
                Err(e) => {
                    return Err(e);
                },
                Ok(slot) => {
                    proof {
                        let ghost old_slots = slots@;
                        match slots_for(
                            self.max_file_size,
                            self.allowed_types@,
                            files@.skip(n + 1),
                            taken@.push(slot),
                        ) {
                            Ok(rest) => {
                                assert(old_slots + (seq![slot] + rest) =~= old_slots.push(slot)
                                    + rest);
                            },
                            Err(e) => {},
                        }
                    }
                    slots.push(slot);
                    taken.push(slot);
                },
            }
            n = n + 1;
        }
        proof {
            assert(files@.skip(n as int).len() == 0);
            assert(slots@ + Seq::<i32>::empty() =~= slots@);
        }
        Ok(slots)
    }
}

/// The first free slot is a slot from 1 to 5 that is not taken.
pub proof fn lemma_first_free_slot(taken: Seq<i32>)
    ensures
        first_free_slot(taken) matches Some(k) ==> 1 <= k <= DISPLAY_SLOTS && !taken.contains(k),
{
    if exists|k: i32| 1 <= k <= DISPLAY_SLOTS && !taken.contains(k) {
        let w = choose|k: i32| 1 <= k <= DISPLAY_SLOTS && !taken.contains(k);
        // the least free slot exists below any free slot
        lemma_least_free_slot(taken, w);
    }
}

proof fn lemma_least_free_slot(taken: Seq<i32>, w: i32)
    requires
        1 <= w <= DISPLAY_SLOTS,
        !taken.contains(w),
    ensures
        exists|k: i32|
            1 <= k <= DISPLAY_SLOTS && !taken.contains(k) && forall|j: i32|
                1 <= j < k ==> taken.contains(j),
    decreases w,
{
    if forall|j: i32| 1 <= j < w ==> taken.contains(j) {
    } else {
        let j = choose|j: i32| 1 <= j < w && !taken.contains(j);
        lemma_least_free_slot(taken, j);
    }
}

/// The slots an accepted upload gets lie between 1 and 5, are all different,
/// and none was taken before.
pub proof fn lemma_upload_slots_free_and_distinct(
    max_file_size: usize,
    allowed: Seq<String>,
    files: Seq<UploadFile>,
    taken: Seq<i32>,
)
    ensures
        slots_for(max_file_size, allowed, files, taken) matches Ok(slots) ==> {
            &&& slots.len() == files.len()
            &&& forall|i: int| 0 <= i < slots.len() ==> 1 <= #[trigger] slots[i] <= DISPLAY_SLOTS
            &&& forall|i: int| 0 <= i < slots.len() ==> !taken.contains(#[trigger] slots[i])
            &&& forall|i: int, j: int| 0 <= i < j < slots.len() ==> slots[i] != slots[j]
        },
    decreases files.len(),
{
    if files.len() > 0 {
        let f = files[0];
        if f.size <= max_file_size && type_listed(allowed, f.mime_type@) {
            lemma_first_free_slot(taken);
            match first_free_slot(taken) {
                Some(slot) => {
                    let next = taken.push(slot);
                    lemma_upload_slots_free_and_distinct(
                        max_file_size,
                        allowed,
                        files.drop_first(),
                        next,
                    );
                    match slots_for(max_file_size, allowed, files.drop_first(), next) {
                        Ok(rest) => {
                            let slots = seq![slot] + rest;
                            assert forall|i: int| 0 <= i < slots.len() implies !taken.contains(
                                #[trigger] slots[i],
                            ) by {
                                if i > 0 {
                                    assert(slots[i] == rest[i - 1]);
                                    if taken.contains(rest[i - 1]) {
                                        let w = choose|w: int| 0 <= w < taken.len() && taken[w] == rest[i - 1];
                                        assert(next[w] == rest[i - 1]);
                                    }
                                }
                            }
                            assert forall|i: int| 0 <= i < slots.len() implies 1 <= #[trigger] slots[i]
                                <= DISPLAY_SLOTS by {
                                if i > 0 {
                                    assert(slots[i] == rest[i - 1]);
                                }
                            }
                            assert forall|i: int, j: int| 0 <= i < j < slots.len() implies slots[i]
                                != slots[j] by {
                                assert(slots[j] == rest[j - 1]);
                                if i == 0 {
                                    assert(next[taken.len() as int] == slot);
                                    assert(!next.contains(rest[j - 1]));
                                } else {
                                    assert(slots[i] == rest[i - 1]);
                                }
                            }
                        },
                        Err(_) => {},
                    }
                },
                None => {},
            }
        }
    }
}


/// Slot assignment refuses only a file that is too large or of a type not
/// allowed, or runs out of slots: never for the number of files.
proof fn lemma_slots_never_count(
    max_file_size: usize,
    allowed: Seq<String>,
    files: Seq<UploadFile>,
    taken: Seq<i32>,
)
    ensures
        !(slots_for(max_file_size, allowed, files, taken) matches Err(UploadError::TooManyFiles { .. })),
    decreases files.len(),
{
    if files.len() > 0 {
        match first_free_slot(taken) {
            Some(slot) => {
                lemma_slots_never_count(max_file_size, allowed, files.drop_first(), taken.push(slot));
            },
            None => {},
        }
    }
}

/// An upload is refused for its number of files exactly when the item's
/// images and the new files together exceed the per-item maximum: an item
/// may be filled up to the maximum.
pub proof fn lemma_count_refusal_exactly_over_maximum(
    svc: ImageService,
    current_count: usize,
    files: Seq<UploadFile>,
    taken: Seq<i32>,
)
    ensures
        (upload_outcome(svc, current_count, files, taken) matches Err(
            UploadError::TooManyFiles { .. },
        )) <==> current_count + files.len() > svc.max_files_per_item,
{
    lemma_slots_never_count(svc.max_file_size, svc.allowed_types@, files, taken);
}


/// Of the display slots, `taken` holds exactly the first `k`.
pub open spec fn holds_first_slots(taken: Seq<i32>, k: int) -> bool {
    forall|j: i32| 1 <= j <= DISPLAY_SLOTS ==> (#[trigger] taken.contains(j) <==> j <= k)
}

/// A file within the size limit and of an allowed type.
pub open spec fn acceptable_file(max_file_size: usize, allowed: Seq<String>, f: UploadFile) -> bool {
    f.size <= max_file_size && type_listed(allowed, f.mime_type@)
}

proof fn lemma_next_free_slot(taken: Seq<i32>, k: int)
    requires
        0 <= k < DISPLAY_SLOTS,
        holds_first_slots(taken, k),
    ensures
        first_free_slot(taken) == Some((k + 1) as i32),
{
    let n = (k + 1) as i32;
    assert(!taken.contains(n));
    let c = choose|c: i32|
        1 <= c <= DISPLAY_SLOTS && !taken.contains(c) && forall|j: i32| 1 <= j < c ==> taken.contains(j);
    assert(1 <= n <= DISPLAY_SLOTS && !taken.contains(n) && forall|j: i32| 1 <= j < n ==> taken.contains(j));
    if c < n {
        assert(taken.contains(c));
    }
    if c > n {
        assert(taken.contains(n));
    }
}

/// Acceptable files after the first `k` slots are taken get the next slots,
/// in order, while slots last.
proof fn lemma_acceptable_files_get_next_slots(
    max_file_size: usize,
    allowed: Seq<String>,
    files: Seq<UploadFile>,
    taken: Seq<i32>,
    k: int,
)
    requires
        0 <= k,
        k + files.len() <= DISPLAY_SLOTS,
        holds_first_slots(taken, k),
        forall|i: int| 0 <= i < files.len() ==> acceptable_file(max_file_size, allowed, #[trigger] files[i]),
    ensures
        slots_for(max_file_size, allowed, files, taken) == Ok::<Seq<i32>, UploadError>(
            Seq::new(files.len(), |i: int| (k + 1 + i) as i32),
        ),
    decreases files.len(),
{
    if files.len() == 0 {
        assert(Seq::new(0, |i: int| (k + 1 + i) as i32) =~= Seq::<i32>::empty());
    } else {
        assert(acceptable_file(max_file_size, allowed, files[0]));
        lemma_next_free_slot(taken, k);
        let slot = (k + 1) as i32;
        let next = taken.push(slot);
        assert forall|j: i32| 1 <= j <= DISPLAY_SLOTS implies (#[trigger] next.contains(j) <==> j <= k + 1) by {
            if next.contains(j) && j != slot {
                let w = choose|w: int| 0 <= w < next.len() && next[w] == j;
                assert(taken[w] == j);
                assert(taken.contains(j));
            }
            if j <= k {
                assert(taken.contains(j));
                let w = choose|w: int| 0 <= w < taken.len() && taken[w] == j;
                assert(next[w] == j);
            }
            if j == slot {
                assert(next[taken.len() as int] == j);
            }
        }
        let rest = files.drop_first();
        assert forall|i: int| 0 <= i < rest.len() implies acceptable_file(max_file_size, allowed, #[trigger] rest[i]) by {
            assert(rest[i] == files[i + 1]);
        }
        lemma_acceptable_files_get_next_slots(max_file_size, allowed, rest, next, k + 1);
        assert(seq![slot] + Seq::new(rest.len(), |i: int| (k + 1 + 1 + i) as i32) =~= Seq::new(
            files.len(),
            |i: int| (k + 1 + i) as i32,
        ));
    }
}

/// An item with no images takes any acceptable files up to its maximum and
/// the number of display slots: they get the slots 1, 2, 3, ... in order.
pub proof fn lemma_acceptable_upload_succeeds(
    svc: ImageService,
    files: Seq<UploadFile>,
    taken: Seq<i32>,
)
    requires
        files.len() <= svc.max_files_per_item,
        files.len() <= DISPLAY_SLOTS,
        forall|j: i32| 1 <= j <= DISPLAY_SLOTS ==> !(#[trigger] taken.contains(j)),
        forall|i: int|
            0 <= i < files.len() ==> acceptable_file(svc.max_file_size, svc.allowed_types@, #[trigger] files[i]),
    ensures
        upload_outcome(svc, 0, files, taken) == Ok::<Seq<i32>, UploadError>(
            Seq::new(files.len(), |i: int| (i + 1) as i32),
        ),
{
    lemma_acceptable_files_get_next_slots(svc.max_file_size, svc.allowed_types@, files, taken, 0);
    assert(Seq::new(files.len(), |i: int| (0 + 1 + i) as i32) =~= Seq::new(
        files.len(),
        |i: int| (i + 1) as i32,
    ));
}

} // verus!
