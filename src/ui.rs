use vstd::prelude::*;

use crate::catalog::has_prefix;

verus! {

/// Text to show, by its translation key.
#[derive(Debug, Clone, Copy)]
pub struct Translated {
    pub key: &'static str,
}

/// The text of a translation key.
pub fn t(key: &'static str) -> (r: Translated)
    ensures
        r.key == key,
{
    Translated { key }
}

impl Translated {
    /// The text shown: the translation found for the key, else the key itself.
    pub fn text(&self, found: Option<String>) -> (r: String)
        ensures
            found is Some ==> r == found->0,
            found is None ==> r@ == self.key@,
    {
        match found {
            Some(s) => s,
            None => String::from_str(self.key),
        }
    }
}

/// Icons of this application.
#[derive(Debug, Clone, Copy, PartialEq, Eq, Structural)]
pub enum CustomIconName {
    Cable,
}

impl CustomIconName {
    /// The asset path of the icon.
    pub fn path(&self) -> (r: &'static str)
        ensures
            *self == CustomIconName::Cable ==> r@ == "icons/cable.svg"@,
    {
        match self {
            CustomIconName::Cable => "icons/cable.svg",
        }
    }
}

/// The assets embedded in this application.
#[derive(Debug, Clone, Copy)]
pub struct CustomAssets;

/// The message for an asset path that names no embedded file.
pub open spec fn missing_asset_message(path: Seq<char>) -> Seq<char> {
    "could not find asset at path \""@ + path + "\""@
}

impl CustomAssets {
    /// Loads the asset at `path`, given what the embedded files hold for it
    /// (`found`): an empty path names no asset; a path with no file is an
    /// error that names it.
    pub fn load(&self, path: &str, found: Option<Vec<u8>>) -> (r: Result<Option<Vec<u8>>, String>)
        ensures
            path@.len() == 0 ==> r == Ok::<Option<Vec<u8>>, String>(None),
            path@.len() > 0 && found is Some ==> r == Ok::<Option<Vec<u8>>, String>(found),
            path@.len() > 0 && found is None ==> r is Err && r->Err_0@ == missing_asset_message(
                path@,
            ),
    {
        if path.is_empty() {
            return Ok(None);
        }
        match found {
            Some(data) => Ok(Some(data)),
            None => {
                let mut message = String::from_str("could not find asset at path \"");
                message.append(path);
                message.append("\"");
                Err(message)
            },
        }
    }

    /// The embedded file names (`names`) under `path`, in order.
    pub fn list(&self, path: &str, names: &Vec<String>) -> (r: Vec<String>)
        ensures
            r@.map_values(|s: String| s@) == names@.map_values(|s: String| s@).filter(
                |s: Seq<char>| path@.len() <= s.len() && s.subrange(0, path@.len() as int) == path@,
            ),
    {
        let mut r: Vec<String> = Vec::new();
        let mut i: usize = 0;
        while i < names.len()
            invariant
                i <= names.len(),
                r@.map_values(|s: String| s@) == names@.subrange(0, i as int).map_values(
                    |s: String| s@,
                ).filter(
                    |s: Seq<char>|
                        path@.len() <= s.len() && s.subrange(0, path@.len() as int) == path@,
                ),
            decreases names.len() - i,
        {
            let ghost f = |s: String| s@;
            let ghost p = |s: Seq<char>|
                path@.len() <= s.len() && s.subrange(0, path@.len() as int) == path@;
            let ghost prefix = names@.subrange(0, i as int);
            assert(names@.subrange(0, i as int + 1).map_values(f) =~= prefix.map_values(f).push(
                names@[i as int]@,
            ));
            proof {
                prefix.map_values(f).lemma_filter_push(names@[i as int]@, p);
            }
            if has_prefix(names[i].as_str(), path) {
                let ghost before = r@;
                r.push(names[i].clone());
                assert(r@.map_values(f) =~= before.map_values(f).push(names@[i as int]@));
            }
            i = i + 1;
        }
        assert(names@.subrange(0, names.len() as int) =~= names@);
        r
    }
}

} // verus!
