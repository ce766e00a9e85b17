//! How the manifest of a project is amended before the project is
//! cross-compiled, for the size of its artifacts: the static-library crate
//! type leaves, and the release profile gets the settings for size that the
//! project does not make itself.

use vstd::prelude::*;

verus! {

/// The crate type that is taken out of the manifest.
pub open spec fn removed_crate_type() -> Seq<char> {
    "rlib"@
}

/// A setting of the release profile that is made for size.
#[derive(Clone, Copy, Debug, PartialEq, Eq, Structural)]
pub enum ProfileSetting {
    /// The smallest code size.
    OptLevel,
    /// Optimization across the whole program at link time.
    Lto,
    /// One unit of code generation, so that nothing escapes inlining.
    CodegenUnits,
    /// Arithmetic that is checked for overflow.
    OverflowChecks,
    /// A panic that aborts, without unwinding.
    Panic,
}

/// What a setting is set to.
#[derive(Clone, Copy, Debug, PartialEq, Eq)]
pub enum ProfileValue {
    Text(&'static str),
    Flag(bool),
    Number(u32),
}

impl ProfileSetting {
    /// The key of the setting in the manifest.
    pub open spec fn key_spec(self) -> Seq<char> {
        match self {
            ProfileSetting::OptLevel => "opt-level"@,
            ProfileSetting::Lto => "lto"@,
            ProfileSetting::CodegenUnits => "codegen-units"@,
            ProfileSetting::OverflowChecks => "overflow-checks"@,
            ProfileSetting::Panic => "panic"@,
        }
    }

    /// The key of the setting in the manifest.
    pub fn key(&self) -> (key: &'static str)
        ensures
            key@ == self.key_spec(),
    {
        match self {
            ProfileSetting::OptLevel => "opt-level",
            ProfileSetting::Lto => "lto",
            ProfileSetting::CodegenUnits => "codegen-units",
            ProfileSetting::OverflowChecks => "overflow-checks",
            ProfileSetting::Panic => "panic",
        }
    }

    /// What the setting is set to where the project does not set it.
    pub fn value(&self) -> (value: ProfileValue)
        ensures
            match self {
                ProfileSetting::OptLevel => value matches ProfileValue::Text(text) && text@ == "z"@,
                ProfileSetting::Lto => value matches ProfileValue::Text(text) && text@ == "fat"@,
                ProfileSetting::CodegenUnits => value matches ProfileValue::Number(number)
                    && number == 1,
                ProfileSetting::OverflowChecks => value matches ProfileValue::Flag(flag) && flag,
                ProfileSetting::Panic => value matches ProfileValue::Text(text) && text@
                    == "abort"@,
            },
    {
        match self {
            ProfileSetting::OptLevel => ProfileValue::Text("z"),
            ProfileSetting::Lto => ProfileValue::Text("fat"),
            ProfileSetting::CodegenUnits => ProfileValue::Number(1),
            ProfileSetting::OverflowChecks => ProfileValue::Flag(true),
            ProfileSetting::Panic => ProfileValue::Text("abort"),
        }
    }
}

/// The settings for size, in the order in which they are made.
pub open spec fn size_settings() -> Seq<ProfileSetting> {
    seq![
        ProfileSetting::OptLevel,
        ProfileSetting::Lto,
        ProfileSetting::CodegenUnits,
        ProfileSetting::OverflowChecks,
        ProfileSetting::Panic,
    ]
}

/// One of `keys` is `key`.
pub open spec fn sets_key(keys: Seq<Seq<char>>, key: Seq<char>) -> bool {
    exists|i: int| 0 <= i < keys.len() && #[trigger] keys[i] == key
}

/// The texts of a list of strings.
pub open spec fn texts_of(list: Seq<String>) -> Seq<Seq<char>> {
    list.map_values(|text: String| text@)
}

/// Whether one of `keys` is `key`.
fn is_set(keys: &Vec<String>, key: &str) -> (res: bool)
    ensures
        res == sets_key(texts_of(keys@), key@),
{
    let wanted = key.to_owned();
    let mut i: usize = 0;
    while i < keys.len()
        invariant
            i <= keys.len(),
            wanted@ == key@,
            forall|j: int| 0 <= j < i ==> #[trigger] texts_of(keys@)[j] != key@,
        decreases keys.len() - i,
    {
        if keys[i] == wanted {
            assert(texts_of(keys@)[i as int] == key@);
            return true;
        }
        i += 1;
    }
    false
}

/// The settings that are added to a release profile in which the project
/// sets `user_keys`: the settings for size that the project does not set
/// itself, in their order. What the project sets is never overwritten.
pub fn settings_to_add(user_keys: &Vec<String>) -> (settings: Vec<ProfileSetting>)
    ensures
        settings@ == size_settings().filter(
            |setting: ProfileSetting| !sets_key(texts_of(user_keys@), setting.key_spec()),
        ),
{
    let mut all: Vec<ProfileSetting> = Vec::new();
    all.push(ProfileSetting::OptLevel);
    all.push(ProfileSetting::Lto);
    all.push(ProfileSetting::CodegenUnits);
    all.push(ProfileSetting::OverflowChecks);
    all.push(ProfileSetting::Panic);
    assert(all@ =~= size_settings());
    let ghost missing = |setting: ProfileSetting|
        !sets_key(texts_of(user_keys@), setting.key_spec());
    let mut settings: Vec<ProfileSetting> = Vec::new();
    let mut i: usize = 0;
    assert(all@.take(0).filter(missing) =~= Seq::<ProfileSetting>::empty()) by {
        reveal(Seq::filter);
    }
    while i < all.len()
        invariant
            i <= all.len(),
            all@ == size_settings(),
            missing == |setting: ProfileSetting|
                !sets_key(texts_of(user_keys@), setting.key_spec()),
            settings@ == all@.take(i as int).filter(missing),
        decreases all.len() - i,
    {
        proof {
            let longer = all@.take(i as int + 1);
            assert(longer.drop_last() =~= all@.take(i as int));
            assert(longer.last() == all@[i as int]);
            reveal(Seq::filter);
        }
        if !is_set(user_keys, all[i].key()) {
            settings.push(all[i]);
        }
        i += 1;
    }
    assert(all@.take(i as int) =~= all@);
    settings
}

/// The crate types that stay in the manifest: all but the static library,
/// each as it is written and in the order it had.
pub fn kept_crate_types(crate_types: &Vec<String>) -> (kept: Vec<String>)
    ensures
        texts_of(kept@) == texts_of(crate_types@).filter(
            |kind: Seq<char>| kind != removed_crate_type(),
        ),
{
    let removed = "rlib".to_owned();
    let ghost stays = |kind: Seq<char>| kind != removed_crate_type();
    let ghost given = texts_of(crate_types@);
    let mut kept: Vec<String> = Vec::new();
    let mut i: usize = 0;
    assert(given.take(0).filter(stays) =~= Seq::<Seq<char>>::empty()) by {
        reveal(Seq::filter);
    }
    assert(texts_of(kept@) =~= Seq::<Seq<char>>::empty());
    while i < crate_types.len()
        invariant
            i <= crate_types.len(),
            removed@ == removed_crate_type(),
            given == texts_of(crate_types@),
            stays == |kind: Seq<char>| kind != removed_crate_type(),
            texts_of(kept@) == given.take(i as int).filter(stays),
        decreases crate_types.len() - i,
    {
        proof {
            let longer = given.take(i as int + 1);
            assert(longer.drop_last() =~= given.take(i as int));
            assert(longer.last() == crate_types@[i as int]@);
            reveal(Seq::filter);
        }
        if crate_types[i] != removed {
            let ghost before = kept@;
            kept.push(crate_types[i].clone());
            assert(texts_of(kept@) =~= texts_of(before).push(crate_types@[i as int]@));
        }
        i += 1;
    }
    assert(given.take(i as int) =~= given);
    kept
}

} // verus!
