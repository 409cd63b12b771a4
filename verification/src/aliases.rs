//! Alias tokens: the short words by which a product can be named in a query.

use vstd::hash_map::StringHashMap;
use vstd::prelude::*;
use crate::ide::{
    all_products,
    all_products_is_complete,
    default_alias_is_injective,
    default_alias_of,
    product_of_code,
    IDEType,
};

verus! {

/// One alias: a token and the product it stands for.
pub type AliasEntry = (String, IDEType);

/// The tokens and products of a list of aliases.
pub open spec fn entries_of(aliases: Seq<AliasEntry>) -> Seq<(Seq<char>, IDEType)> {
    aliases.map_values(|e: AliasEntry| (e.0@, e.1))
}

/// `base` with the entries put in one after another, so that a later entry
/// replaces an earlier one of the same token.
pub open spec fn with_entries(
    base: Map<Seq<char>, IDEType>,
    entries: Seq<(Seq<char>, IDEType)>,
) -> Map<Seq<char>, IDEType>
    decreases entries.len(),
{
    if entries.len() == 0 {
        base
    } else {
        with_entries(base, entries.drop_last()).insert(entries.last().0, entries.last().1)
    }
}

/// The product of the last entry that has the token, if any entry has it.
pub open spec fn last_entry(entries: Seq<(Seq<char>, IDEType)>, token: Seq<char>) -> Option<
    IDEType,
>
    decreases entries.len(),
{
    if entries.len() == 0 {
        None
    } else if entries.last().0 == token {
        Some(entries.last().1)
    } else {
        last_entry(entries.drop_last(), token)
    }
}

/// The first layer: each product under its default alias.
pub open spec fn default_entries() -> Seq<(Seq<char>, IDEType)> {
    all_products().map_values(|ide: IDEType| (default_alias_of(ide), ide))
}

/// The second layer: shorthands that the default aliases do not give.
pub open spec fn shorthand_entries() -> Seq<(Seq<char>, IDEType)> {
    seq![
        ("php"@, IDEType::PHPStorm),
        ("py"@, IDEType::PyCharm),
        ("web"@, IDEType::WebStorm),
        ("go"@, IDEType::GoLand),
        ("ruby"@, IDEType::RubyMine),
        ("studio"@, IDEType::AndroidStudio),
        ("android"@, IDEType::AndroidStudio),
        ("rust"@, IDEType::RustRover),
    ]
}

/// The registry made of the three layers: default aliases, then shorthands,
/// then the aliases that the user declared.
pub open spec fn registry_of(custom: Seq<(Seq<char>, IDEType)>) -> Map<Seq<char>, IDEType> {
    with_entries(
        with_entries(with_entries(Map::empty(), default_entries()), shorthand_entries()),
        custom,
    )
}

/// The product that a token names: the registry's entry where it has one,
/// else the product whose code the token is.
pub open spec fn resolved(aliases: Map<Seq<char>, IDEType>, token: Seq<char>) -> Option<IDEType> {
    if aliases.contains_key(token) {
        Some(aliases[token])
    } else {
        product_of_code(token)
    }
}

/// A token looked up after some entries went in gives the last of them that
/// has the token, and what was there before where none has.
pub proof fn with_entries_lookup(
    base: Map<Seq<char>, IDEType>,
    entries: Seq<(Seq<char>, IDEType)>,
    token: Seq<char>,
)
    ensures
        match last_entry(entries, token) {
            Some(ide) => with_entries(base, entries).contains_key(token) && with_entries(
                base,
                entries,
            )[token] == ide,
            None => with_entries(base, entries).contains_key(token) == base.contains_key(token)
                && (base.contains_key(token) ==> with_entries(base, entries)[token]
                == base[token]),
        },
    decreases entries.len(),
{
    if entries.len() > 0 {
        with_entries_lookup(base, entries.drop_last(), token);
    }
}

/// Where no entry has the token, none is the last to have it.
pub proof fn last_entry_of_absent(entries: Seq<(Seq<char>, IDEType)>, token: Seq<char>)
    requires
        forall|i: int| 0 <= i < entries.len() ==> (#[trigger] entries[i]).0 != token,
    ensures
        last_entry(entries, token) is None,
    decreases entries.len(),
{
    if entries.len() > 0 {
        let front = entries.drop_last();
        assert forall|i: int| 0 <= i < front.len() implies (#[trigger] front[i]).0 != token by {
            assert(front[i] == entries[i]);
        }
        last_entry_of_absent(front, token);
    }
}

proof fn default_entry_of(products: Seq<IDEType>, ide: IDEType)
    requires
        products.contains(ide),
    ensures
        last_entry(products.map_values(|p: IDEType| (default_alias_of(p), p)), default_alias_of(ide))
            == Some(ide),
    decreases products.len(),
{
    let entries = products.map_values(|p: IDEType| (default_alias_of(p), p));
    if products.len() > 0 {
        let front = products.drop_last();
        assert(entries.drop_last() =~= front.map_values(|p: IDEType| (default_alias_of(p), p)));
        assert(entries.last() == (default_alias_of(products.last()), products.last()));
        if default_alias_of(products.last()) == default_alias_of(ide) {
            default_alias_is_injective(products.last(), ide);
        } else {
            let i = choose|i: int| 0 <= i < products.len() && products[i] == ide;
            assert(front[i] == ide);
            default_entry_of(front, ide);
        }
    }
}

proof fn reveal_shorthands()
    ensures
        "php"@.len() == 3 && "php"@[1] == 'h' && "php"@[0] == 'p',
        "py"@.len() == 2 && "py"@[0] == 'p',
        "web"@.len() == 3 && "web"@[0] == 'w',
        "go"@.len() == 2 && "go"@[0] == 'g',
        "ruby"@.len() == 4 && "ruby"@[0] == 'r' && "ruby"@[2] == 'b',
        "studio"@.len() == 6 && "studio"@[0] == 's',
        "android"@.len() == 7 && "android"@[0] == 'a',
        "rust"@.len() == 4 && "rust"@[0] == 'r' && "rust"@[2] == 's',
        "aqua"@.len() == 4 && "aqua"@[0] == 'a',
        "clion"@.len() == 5,
        "idea"@.len() == 4 && "idea"@[0] == 'i',
        "phpstorm"@.len() == 8,
        "pycharm"@.len() == 7 && "pycharm"@[0] == 'p',
        "rider"@.len() == 5,
        "webstorm"@.len() == 8,
        "goland"@.len() == 6 && "goland"@[0] == 'g',
        "datagrip"@.len() == 8,
        "dataspell"@.len() == 9,
        "rubymine"@.len() == 8,
        "android-studio"@.len() == 14,
        "rustrover"@.len() == 9,
        "mps"@.len() == 3 && "mps"@[1] == 'p' && "mps"@[0] == 'm',
{
    reveal_strlit("php");
    reveal_strlit("py");
    reveal_strlit("web");
    reveal_strlit("go");
    reveal_strlit("ruby");
    reveal_strlit("studio");
    reveal_strlit("android");
    reveal_strlit("rust");
    reveal_strlit("aqua");
    reveal_strlit("clion");
    reveal_strlit("idea");
    reveal_strlit("phpstorm");
    reveal_strlit("pycharm");
    reveal_strlit("rider");
    reveal_strlit("webstorm");
    reveal_strlit("goland");
    reveal_strlit("datagrip");
    reveal_strlit("dataspell");
    reveal_strlit("rubymine");
    reveal_strlit("android-studio");
    reveal_strlit("rustrover");
    reveal_strlit("mps");
}

/// No shorthand is the default alias of a product.
pub proof fn shorthands_spare_default_aliases(ide: IDEType)
    ensures
        last_entry(shorthand_entries(), default_alias_of(ide)) is None,
{
    reveal_shorthands();
    let token = default_alias_of(ide);
    let entries = shorthand_entries();
    assert(token.len() > 2);
    assert(entries[0].0 == "php"@ && "php"@ != token) by {
        assert("php"@[1] != token[1] || "php"@.len() != token.len());
    }
    assert(entries[1].0 == "py"@ && "py"@ != token);
    assert(entries[2].0 == "web"@ && "web"@ != token) by {
        assert("web"@[0] != token[0] || "web"@.len() != token.len());
    }
    assert(entries[3].0 == "go"@ && "go"@ != token);
    assert(entries[4].0 == "ruby"@ && "ruby"@ != token) by {
        assert("ruby"@[0] != token[0] || "ruby"@.len() != token.len());
    }
    assert(entries[5].0 == "studio"@ && "studio"@ != token) by {
        assert("studio"@[0] != token[0] || "studio"@.len() != token.len());
    }
    assert(entries[6].0 == "android"@ && "android"@ != token) by {
        assert("android"@[0] != token[0] || "android"@.len() != token.len());
    }
    assert(entries[7].0 == "rust"@ && "rust"@ != token) by {
        assert("rust"@[0] != token[0] || "rust"@.len() != token.len());
    }
    assert forall|i: int| 0 <= i < entries.len() implies (#[trigger] entries[i]).0 != token by {
        assert(i == 0 || i == 1 || i == 2 || i == 3 || i == 4 || i == 5 || i == 6 || i == 7);
    }
    last_entry_of_absent(entries, token);
}

/// No two shorthands share a token, so each is the last entry of its token.
pub proof fn shorthands_are_distinct(i: int)
    requires
        0 <= i < shorthand_entries().len(),
    ensures
        last_entry(shorthand_entries(), shorthand_entries()[i].0) == Some(shorthand_entries()[i].1),
{
    reveal_shorthands();
    let entries = shorthand_entries();
    let token = entries[i].0;
    assert(entries[0].0 == "php"@ && entries[1].0 == "py"@ && entries[2].0 == "web"@
        && entries[3].0 == "go"@ && entries[4].0 == "ruby"@ && entries[5].0 == "studio"@
        && entries[6].0 == "android"@ && entries[7].0 == "rust"@);
    assert("php"@ != "web"@) by {
        assert("php"@[0] != "web"@[0]);
    }
    assert("py"@ != "go"@) by {
        assert("py"@[0] != "go"@[0]);
    }
    assert("ruby"@ != "rust"@) by {
        assert("ruby"@[2] != "rust"@[2]);
    }
    assert(i == 0 || i == 1 || i == 2 || i == 3 || i == 4 || i == 5 || i == 6 || i == 7);
    let e7 = entries;
    let e6 = e7.drop_last();
    let e5 = e6.drop_last();
    let e4 = e5.drop_last();
    let e3 = e4.drop_last();
    let e2 = e3.drop_last();
    let e1 = e2.drop_last();
    let e0 = e1.drop_last();
    assert(e7.last() == entries[7] && e6.last() == entries[6] && e5.last() == entries[5]
        && e4.last() == entries[4] && e3.last() == entries[3] && e2.last() == entries[2]
        && e1.last() == entries[1] && e0.last() == entries[0]);
    assert(e0.len() == 1 && e0.drop_last().len() == 0);
    assert(last_entry(e0.drop_last(), token) is None);
    assert(last_entry(e0, token) == if i == 0 {
        Some(entries[0].1)
    } else {
        None
    });
    assert(last_entry(e1, token) == if i <= 1 {
        Some(entries[i].1)
    } else {
        None
    });
    assert(last_entry(e2, token) == if i <= 2 {
        Some(entries[i].1)
    } else {
        None
    });
    assert(last_entry(e3, token) == if i <= 3 {
        Some(entries[i].1)
    } else {
        None
    });
    assert(last_entry(e4, token) == if i <= 4 {
        Some(entries[i].1)
    } else {
        None
    });
    assert(last_entry(e5, token) == if i <= 5 {
        Some(entries[i].1)
    } else {
        None
    });
    assert(last_entry(e6, token) == if i <= 6 {
        Some(entries[i].1)
    } else {
        None
    });
}

/// A shorthand resolves to its product, unless a custom alias took the token.
pub proof fn shorthand_resolves(i: int, custom: Seq<(Seq<char>, IDEType)>)
    requires
        0 <= i < shorthand_entries().len(),
        last_entry(custom, shorthand_entries()[i].0) is None,
    ensures
        resolved(registry_of(custom), shorthand_entries()[i].0) == Some(shorthand_entries()[i].1),
{
    let token = shorthand_entries()[i].0;
    let defaults = with_entries(Map::empty(), default_entries());
    let shorthands = with_entries(defaults, shorthand_entries());
    shorthands_are_distinct(i);
    with_entries_lookup(defaults, shorthand_entries(), token);
    with_entries_lookup(shorthands, custom, token);
}

/// What the registry holds under a product's default alias: the product of
/// the last custom alias that took the token, and the product itself where no
/// custom alias did.
pub proof fn default_alias_lookup(ide: IDEType, custom: Seq<(Seq<char>, IDEType)>)
    ensures
        resolved(registry_of(custom), default_alias_of(ide)) == match last_entry(
            custom,
            default_alias_of(ide),
        ) {
            Some(other) => Some(other),
            None => Some(ide),
        },
{
    let token = default_alias_of(ide);
    let defaults = with_entries(Map::empty(), default_entries());
    let shorthands = with_entries(defaults, shorthand_entries());
    all_products_is_complete(ide);
    default_entry_of(all_products(), ide);
    with_entries_lookup(Map::empty(), default_entries(), token);
    shorthands_spare_default_aliases(ide);
    with_entries_lookup(defaults, shorthand_entries(), token);
    with_entries_lookup(shorthands, custom, token);
}

/// A product's default alias resolves back to that product, unless a custom
/// alias took the token for another product.
pub proof fn default_alias_resolves(ide: IDEType, custom: Seq<(Seq<char>, IDEType)>)
    requires
        last_entry(custom, default_alias_of(ide)) is None || last_entry(
            custom,
            default_alias_of(ide),
        ) == Some(ide),
    ensures
        resolved(registry_of(custom), default_alias_of(ide)) == Some(ide),
{
    default_alias_lookup(ide, custom);
}

/// The lookup table from alias tokens to products.
pub struct AliasRegistry {
    aliases: StringHashMap<IDEType>,
}

impl View for AliasRegistry {
    type V = Map<Seq<char>, IDEType>;

    closed spec fn view(&self) -> Map<Seq<char>, IDEType> {
        self.aliases@
    }
}

/// The shorthands, as they go into the registry.
pub fn shorthand_aliases() -> (aliases: Vec<AliasEntry>)
    ensures
        entries_of(aliases@) == shorthand_entries(),
{
    let mut aliases: Vec<AliasEntry> = Vec::new();
    aliases.push(("php".to_owned(), IDEType::PHPStorm));
    aliases.push(("py".to_owned(), IDEType::PyCharm));
    aliases.push(("web".to_owned(), IDEType::WebStorm));
    aliases.push(("go".to_owned(), IDEType::GoLand));
    aliases.push(("ruby".to_owned(), IDEType::RubyMine));
    aliases.push(("studio".to_owned(), IDEType::AndroidStudio));
    aliases.push(("android".to_owned(), IDEType::AndroidStudio));
    aliases.push(("rust".to_owned(), IDEType::RustRover));
    assert(entries_of(aliases@) =~= shorthand_entries());
    aliases
}

/// Each product under its default alias.
pub fn default_aliases() -> (aliases: Vec<AliasEntry>)
    ensures
        entries_of(aliases@) == default_entries(),
{
    let products = IDEType::all();
    let mut aliases: Vec<AliasEntry> = Vec::new();
    let mut i: usize = 0;
    while i < products.len()
        invariant
            i <= products.len(),
            products@ == all_products(),
            aliases.len() == i,
            forall|k: int|
                0 <= k < i ==> (#[trigger] aliases@[k]).0@ == default_alias_of(products@[k])
                    && aliases@[k].1 == products@[k],
        decreases products.len() - i,
    {
        let entry = products[i].get_default_alias();
        aliases.push(entry);
        i += 1;
    }
    assert(entries_of(aliases@) =~= default_entries());
    aliases
}

impl AliasRegistry {
    /// A registry without any alias.
    pub fn new() -> (registry: Self)
        ensures
            registry@ == Map::<Seq<char>, IDEType>::empty(),
    {
        AliasRegistry { aliases: StringHashMap::new() }
    }

    /// Puts the aliases in, one after another.
    pub fn extend(&mut self, aliases: &Vec<AliasEntry>)
        ensures
            final(self)@ == with_entries(old(self)@, entries_of(aliases@)),
    {
        let ghost entries = entries_of(aliases@);
        let mut i: usize = 0;
        while i < aliases.len()
            invariant
                i <= aliases.len(),
                entries == entries_of(aliases@),
                self@ == with_entries(old(self)@, entries.take(i as int)),
            decreases aliases.len() - i,
        {
            proof {
                assert(entries.take(i + 1).drop_last() == entries.take(i as int));
                assert(entries.take(i + 1).last() == (aliases@[i as int].0@, aliases@[i as int].1));
            }
            self.aliases.insert(aliases[i].0.clone(), aliases[i].1);
            i += 1;
        }
        assert(entries.take(aliases.len() as int) == entries);
    }

    /// Builds the registry: default aliases, then shorthands, then `custom`.
    pub fn build(custom: &Vec<AliasEntry>) -> (registry: Self)
        ensures
            registry@ == registry_of(entries_of(custom@)),
    {
        let mut registry = AliasRegistry::new();
        let defaults = default_aliases();
        registry.extend(&defaults);
        let shorthands = shorthand_aliases();
        registry.extend(&shorthands);
        registry.extend(custom);
        registry
    }

    /// The product that the token names, if it names one.
    pub fn resolve(&self, token: &str) -> (ide: Option<IDEType>)
        ensures
            ide == resolved(self@, token@),
    {
        match self.aliases.get(token) {
            Some(ide) => Some(*ide),
            None => IDEType::from_product_code(token),
        }
    }
}

} // verus!
