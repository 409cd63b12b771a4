//! The settings that the host hands over: where products are installed, the
//! aliases that the user declared, and whether projects open inside direnv.

use vstd::prelude::*;
use crate::aliases::AliasEntry;
use crate::environment::resolve;
use crate::ide::{product_of_code, IDEType};
use crate::paths::{home_relative_rest, is_home_relative, resolves_to, under_home};
use crate::text::{chars_of, last_index, last_index_of, last_index_of_is_last, slice_chars, string_of};

verus! {

/// The settings of one run.
#[derive(Debug)]
pub struct Config {
    /// The directory under which products are installed.
    pub install_dir: String,
    /// The user's aliases, in the order in which they were declared.
    pub custom_aliases: Vec<AliasEntry>,
    pub use_direnv: bool,
}

/// Why a declared alias is dropped.
#[derive(Debug, Clone, Copy, PartialEq, Eq, Structural)]
pub enum AliasError {
    /// The declaration is not of the form `token:CODE`.
    Malformed,
    /// The code names no supported product.
    UnknownProduct,
}

/// The two parts of a text that holds `sep` exactly once.
pub open spec fn split_pair(text: Seq<char>, sep: char) -> Option<(Seq<char>, Seq<char>)> {
    let at = last_index_of(text, sep);
    if at < 0 || last_index_of(text.take(at), sep) >= 0 {
        None
    } else {
        Some((text.take(at), text.skip(at + 1)))
    }
}

/// The alias that a declaration `token:CODE` declares.
pub open spec fn custom_alias_of(raw: Seq<char>) -> Result<(Seq<char>, IDEType), AliasError> {
    match split_pair(raw, ':') {
        None => Err(AliasError::Malformed),
        Some((token, code)) => match product_of_code(code) {
            None => Err(AliasError::UnknownProduct),
            Some(ide) => Ok((token, ide)),
        },
    }
}

/// The aliases that the declarations declare, in their order, the invalid
/// declarations left out.
pub open spec fn accepted_aliases(raws: Seq<Seq<char>>) -> Seq<(Seq<char>, IDEType)>
    decreases raws.len(),
{
    if raws.len() == 0 {
        Seq::empty()
    } else {
        let before = accepted_aliases(raws.drop_last());
        match custom_alias_of(raws.last()) {
            Ok(entry) => before.push(entry),
            Err(_) => before,
        }
    }
}

/// The default installation directory, with `~` for the home directory.
pub open spec fn default_install_dir() -> Seq<char> {
    "~/.local/share/JetBrains/Toolbox/apps/"@
}

/// The installation directory that is asked for: the one that the host
/// gives, else the default.
pub open spec fn requested_install_dir(install_dir: Option<Seq<char>>) -> Seq<char> {
    match install_dir {
        Some(dir) => dir,
        None => default_install_dir(),
    }
}

/// The default installation directory is home-relative: it names the
/// Toolbox's directory of applications under the home directory.
pub proof fn default_install_dir_is_home_relative()
    ensures
        is_home_relative(default_install_dir()),
        under_home(default_install_dir()) == ".local/share/JetBrains/Toolbox/apps/"@,
{
    reveal_strlit("~/.local/share/JetBrains/Toolbox/apps/");
    reveal_strlit(".local/share/JetBrains/Toolbox/apps/");
    assert("~/.local/share/JetBrains/Toolbox/apps/"@ =~= seq!['~', '/']
        + ".local/share/JetBrains/Toolbox/apps/"@);
    home_relative_rest(default_install_dir(), ".local/share/JetBrains/Toolbox/apps/"@);
}

/// A text that splits in two holds the separator between the parts and
/// nowhere else.
pub proof fn split_pair_is_exact(text: Seq<char>, sep: char)
    ensures
        match split_pair(text, sep) {
            Some((left, right)) => text == left + seq![sep] + right && !left.contains(sep)
                && !right.contains(sep),
            None => true,
        },
{
    let at = last_index_of(text, sep);
    last_index_of_is_last(text, sep);
    if at >= 0 {
        let left = text.take(at);
        let right = text.skip(at + 1);
        last_index_of_is_last(left, sep);
        if last_index_of(left, sep) < 0 {
            assert(text =~= left + seq![sep] + right);
            assert forall|i: int| 0 <= i < right.len() implies right[i] != sep by {
                assert(right[i] == text[at + 1 + i]);
            }
        }
    }
}

/// Reads one declaration of the form `token:CODE`.
pub fn parse_custom_alias(raw: &str) -> (alias: Result<AliasEntry, AliasError>)
    ensures
        match alias {
            Ok(entry) => custom_alias_of(raw@) == Ok::<(Seq<char>, IDEType), AliasError>(
                (entry.0@, entry.1),
            ),
            Err(e) => custom_alias_of(raw@) == Err::<(Seq<char>, IDEType), AliasError>(e),
        },
{
    let chars = chars_of(raw);
    assert(chars@.take(chars.len() as int) == chars@);
    let at = match last_index(&chars, chars.len(), ':') {
        Some(at) => at,
        None => { return Err(AliasError::Malformed); },
    };
    proof {
        last_index_of_is_last(chars@, ':');
    }
    if last_index(&chars, at, ':').is_some() {
        return Err(AliasError::Malformed);
    }
    let token = slice_chars(&chars, 0, at);
    let code = slice_chars(&chars, at + 1, chars.len());
    assert(token@ == chars@.take(at as int));
    assert(code@ == chars@.skip(at + 1));
    let code = string_of(&code);
    match IDEType::from_product_code(code.as_str()) {
        Some(ide) => Ok((string_of(&token), ide)),
        None => Err(AliasError::UnknownProduct),
    }
}

/// Reads the declarations and keeps the aliases of those that are valid.
pub fn parse_custom_aliases(raws: &Vec<String>) -> (aliases: Vec<AliasEntry>)
    ensures
        aliases@.map_values(|e: AliasEntry| (e.0@, e.1)) == accepted_aliases(
            raws@.map_values(|raw: String| raw@),
        ),
{
    let ghost texts = raws@.map_values(|raw: String| raw@);
    let mut aliases: Vec<AliasEntry> = Vec::new();
    let mut i: usize = 0;
    while i < raws.len()
        invariant
            i <= raws.len(),
            texts == raws@.map_values(|raw: String| raw@),
            aliases@.map_values(|e: AliasEntry| (e.0@, e.1)) == accepted_aliases(
                texts.take(i as int),
            ),
        decreases raws.len() - i,
    {
        proof {
            assert(texts.take(i + 1).drop_last() == texts.take(i as int));
            assert(texts.take(i + 1).last() == raws@[i as int]@);
        }
        let ghost before = aliases@;
        match parse_custom_alias(raws[i].as_str()) {
            Ok(entry) => {
                aliases.push(entry);
                assert(aliases@.map_values(|e: AliasEntry| (e.0@, e.1)) == before.map_values(
                    |e: AliasEntry| (e.0@, e.1),
                ).push((entry.0@, entry.1)));
            },
            Err(_) => {},
        }
        i += 1;
    }
    assert(texts.take(raws.len() as int) == texts);
    aliases
}

impl Config {
    /// The settings made of the host's options, the installation directory
    /// being resolved already. The deprecated devshell switch counts as the
    /// direnv switch.
    pub fn assemble(
        install_dir: String,
        custom_aliases: &Vec<String>,
        use_clion_devshell: bool,
        use_direnv: bool,
    ) -> (config: Self)
        ensures
            config.install_dir == install_dir,
            config.custom_aliases@.map_values(|e: AliasEntry| (e.0@, e.1)) == accepted_aliases(
                custom_aliases@.map_values(|raw: String| raw@),
            ),
            config.use_direnv == (use_clion_devshell || use_direnv),
    {
        Config {
            install_dir,
            custom_aliases: parse_custom_aliases(custom_aliases),
            use_direnv: use_clion_devshell || use_direnv,
        }
    }

    /// The settings made of the host's options. The installation directory,
    /// or the default where none is given, is resolved against the
    /// environment; no settings come back where it cannot be resolved. The
    /// settings that come back hold a resolution of the directory that was
    /// asked for, and otherwise what `assemble` makes of the options.
    pub fn from_options(
        install_dir: Option<&str>,
        custom_aliases: &Vec<String>,
        use_clion_devshell: bool,
        use_direnv: bool,
    ) -> (config: Option<Self>)
        ensures
            config matches Some(c) ==> c.custom_aliases@.map_values(|e: AliasEntry| (e.0@, e.1))
                == accepted_aliases(custom_aliases@.map_values(|raw: String| raw@))
                && c.use_direnv == (use_clion_devshell || use_direnv) && resolves_to(
                requested_install_dir(
                    match install_dir {
                        Some(dir) => Some(dir@),
                        None => None,
                    },
                ),
                c.install_dir@,
            ),
    {
        let raw = match install_dir {
            Some(dir) => dir,
            None => "~/.local/share/JetBrains/Toolbox/apps/",
        };
        match resolve(raw) {
            Some(dir) => Some(Config::assemble(dir, custom_aliases, use_clion_devshell, use_direnv)),
            None => None,
        }
    }
}

} // verus!
