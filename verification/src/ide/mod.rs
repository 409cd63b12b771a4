//! The supported products, their product codes, aliases and display names.

use vstd::prelude::*;
use crate::text::{chars_of, spells};

pub mod config_path;
pub mod data;
pub mod product_info;
pub mod properties;
pub mod scan;
pub mod scripts;

verus! {

/// One supported IDE product.
#[allow(clippy::upper_case_acronyms)]
#[derive(Debug, Clone, Copy, PartialEq, Eq, Hash, Structural)]
pub enum IDEType {
    Aqua,
    CLion,
    IntelliJIDEA,
    PHPStorm,
    PyCharm,
    Rider,
    WebStorm,
    GoLand,
    DataGrip,
    DataSpell,
    RubyMine,
    AndroidStudio,
    RustRover,
    MPS,
}

/// The product that a product code stands for, if any. Codes are matched
/// exactly; the community editions share the product of the full edition.
pub open spec fn product_of_code(code: Seq<char>) -> Option<IDEType> {
    if code == "RD"@ {
        Some(IDEType::Rider)
    } else if code == "AI"@ {
        Some(IDEType::AndroidStudio)
    } else if code == "CL"@ {
        Some(IDEType::CLion)
    } else if code == "RR"@ {
        Some(IDEType::RustRover)
    } else if code == "WS"@ {
        Some(IDEType::WebStorm)
    } else if code == "RM"@ {
        Some(IDEType::RubyMine)
    } else if code == "PY"@ || code == "PC"@ {
        Some(IDEType::PyCharm)
    } else if code == "PS"@ {
        Some(IDEType::PHPStorm)
    } else if code == "MPS"@ {
        Some(IDEType::MPS)
    } else if code == "IU"@ || code == "IC"@ {
        Some(IDEType::IntelliJIDEA)
    } else if code == "DS"@ {
        Some(IDEType::DataSpell)
    } else if code == "DB"@ {
        Some(IDEType::DataGrip)
    } else if code == "QA"@ {
        Some(IDEType::Aqua)
    } else if code == "GO"@ {
        Some(IDEType::GoLand)
    } else {
        None
    }
}

/// The canonical short alias of a product.
pub open spec fn default_alias_of(ide: IDEType) -> Seq<char> {
    match ide {
        IDEType::Aqua => "aqua"@,
        IDEType::CLion => "clion"@,
        IDEType::IntelliJIDEA => "idea"@,
        IDEType::PHPStorm => "phpstorm"@,
        IDEType::PyCharm => "pycharm"@,
        IDEType::Rider => "rider"@,
        IDEType::WebStorm => "webstorm"@,
        IDEType::GoLand => "goland"@,
        IDEType::DataGrip => "datagrip"@,
        IDEType::DataSpell => "dataspell"@,
        IDEType::RubyMine => "rubymine"@,
        IDEType::AndroidStudio => "android-studio"@,
        IDEType::RustRover => "rustrover"@,
        IDEType::MPS => "mps"@,
    }
}

/// The name under which a product is shown to people.
pub open spec fn display_name_of(ide: IDEType) -> Seq<char> {
    match ide {
        IDEType::Aqua => "Aqua"@,
        IDEType::CLion => "CLion"@,
        IDEType::IntelliJIDEA => "IntelliJ IDEA"@,
        IDEType::PHPStorm => "PHPStorm"@,
        IDEType::PyCharm => "PyCharm"@,
        IDEType::Rider => "Rider"@,
        IDEType::WebStorm => "WebStorm"@,
        IDEType::GoLand => "GoLand"@,
        IDEType::DataGrip => "DataGrip"@,
        IDEType::DataSpell => "DataSpell"@,
        IDEType::RubyMine => "RubyMine"@,
        IDEType::AndroidStudio => "Android Studio"@,
        IDEType::RustRover => "RustRover"@,
        IDEType::MPS => "MPS"@,
    }
}

/// Every product, in declaration order.
pub open spec fn all_products() -> Seq<IDEType> {
    seq![
        IDEType::Aqua,
        IDEType::CLion,
        IDEType::IntelliJIDEA,
        IDEType::PHPStorm,
        IDEType::PyCharm,
        IDEType::Rider,
        IDEType::WebStorm,
        IDEType::GoLand,
        IDEType::DataGrip,
        IDEType::DataSpell,
        IDEType::RubyMine,
        IDEType::AndroidStudio,
        IDEType::RustRover,
        IDEType::MPS,
    ]
}

impl IDEType {
    /// Reads a product code as it stands in descriptors and custom aliases.
    pub fn from_product_code(code: &str) -> (ide: Option<Self>)
        ensures
            ide == product_of_code(code@),
    {
        let c = chars_of(code);
        if spells(&c, "RD") {
            Some(IDEType::Rider)
        } else if spells(&c, "AI") {
            Some(IDEType::AndroidStudio)
        } else if spells(&c, "CL") {
            Some(IDEType::CLion)
        } else if spells(&c, "RR") {
            Some(IDEType::RustRover)
        } else if spells(&c, "WS") {
            Some(IDEType::WebStorm)
        } else if spells(&c, "RM") {
            Some(IDEType::RubyMine)
        } else if spells(&c, "PY") || spells(&c, "PC") {
            Some(IDEType::PyCharm)
        } else if spells(&c, "PS") {
            Some(IDEType::PHPStorm)
        } else if spells(&c, "MPS") {
            Some(IDEType::MPS)
        } else if spells(&c, "IU") || spells(&c, "IC") {
            Some(IDEType::IntelliJIDEA)
        } else if spells(&c, "DS") {
            Some(IDEType::DataSpell)
        } else if spells(&c, "DB") {
            Some(IDEType::DataGrip)
        } else if spells(&c, "QA") {
            Some(IDEType::Aqua)
        } else if spells(&c, "GO") {
            Some(IDEType::GoLand)
        } else {
            None
        }
    }

    /// The product's canonical alias, paired with the product itself.
    pub fn get_default_alias(&self) -> (entry: (String, IDEType))
        ensures
            entry.0@ == default_alias_of(*self),
            entry.1 == *self,
    {
        let alias = match self {
            IDEType::Aqua => "aqua",
            IDEType::CLion => "clion",
            IDEType::IntelliJIDEA => "idea",
            IDEType::PHPStorm => "phpstorm",
            IDEType::PyCharm => "pycharm",
            IDEType::Rider => "rider",
            IDEType::WebStorm => "webstorm",
            IDEType::GoLand => "goland",
            IDEType::DataGrip => "datagrip",
            IDEType::DataSpell => "dataspell",
            IDEType::RubyMine => "rubymine",
            IDEType::AndroidStudio => "android-studio",
            IDEType::RustRover => "rustrover",
            IDEType::MPS => "mps",
        };
        (alias.to_owned(), *self)
    }

    /// The name under which the product is shown to people.
    pub fn display_name(&self) -> (name: String)
        ensures
            name@ == display_name_of(*self),
    {
        let name = match self {
            IDEType::Aqua => "Aqua",
            IDEType::CLion => "CLion",
            IDEType::IntelliJIDEA => "IntelliJ IDEA",
            IDEType::PHPStorm => "PHPStorm",
            IDEType::PyCharm => "PyCharm",
            IDEType::Rider => "Rider",
            IDEType::WebStorm => "WebStorm",
            IDEType::GoLand => "GoLand",
            IDEType::DataGrip => "DataGrip",
            IDEType::DataSpell => "DataSpell",
            IDEType::RubyMine => "RubyMine",
            IDEType::AndroidStudio => "Android Studio",
            IDEType::RustRover => "RustRover",
            IDEType::MPS => "MPS",
        };
        name.to_owned()
    }

    /// Every product, in declaration order.
    pub fn all() -> (products: Vec<IDEType>)
        ensures
            products@ == all_products(),
    {
        let mut products: Vec<IDEType> = Vec::new();
        products.push(IDEType::Aqua);
        products.push(IDEType::CLion);
        products.push(IDEType::IntelliJIDEA);
        products.push(IDEType::PHPStorm);
        products.push(IDEType::PyCharm);
        products.push(IDEType::Rider);
        products.push(IDEType::WebStorm);
        products.push(IDEType::GoLand);
        products.push(IDEType::DataGrip);
        products.push(IDEType::DataSpell);
        products.push(IDEType::RubyMine);
        products.push(IDEType::AndroidStudio);
        products.push(IDEType::RustRover);
        products.push(IDEType::MPS);
        products
    }
}

/// Every product occurs in `all_products`.
pub proof fn all_products_is_complete(ide: IDEType)
    ensures
        all_products().contains(ide),
{
    let all = all_products();
    match ide {
        IDEType::Aqua => assert(all[0] == ide),
        IDEType::CLion => assert(all[1] == ide),
        IDEType::IntelliJIDEA => assert(all[2] == ide),
        IDEType::PHPStorm => assert(all[3] == ide),
        IDEType::PyCharm => assert(all[4] == ide),
        IDEType::Rider => assert(all[5] == ide),
        IDEType::WebStorm => assert(all[6] == ide),
        IDEType::GoLand => assert(all[7] == ide),
        IDEType::DataGrip => assert(all[8] == ide),
        IDEType::DataSpell => assert(all[9] == ide),
        IDEType::RubyMine => assert(all[10] == ide),
        IDEType::AndroidStudio => assert(all[11] == ide),
        IDEType::RustRover => assert(all[12] == ide),
        IDEType::MPS => assert(all[13] == ide),
    }
}

proof fn reveal_default_aliases()
    ensures
        "aqua"@ == seq!['a', 'q', 'u', 'a'],
        "clion"@ == seq!['c', 'l', 'i', 'o', 'n'],
        "idea"@ == seq!['i', 'd', 'e', 'a'],
        "phpstorm"@ == seq!['p', 'h', 'p', 's', 't', 'o', 'r', 'm'],
        "pycharm"@ == seq!['p', 'y', 'c', 'h', 'a', 'r', 'm'],
        "rider"@ == seq!['r', 'i', 'd', 'e', 'r'],
        "webstorm"@ == seq!['w', 'e', 'b', 's', 't', 'o', 'r', 'm'],
        "goland"@ == seq!['g', 'o', 'l', 'a', 'n', 'd'],
        "datagrip"@ == seq!['d', 'a', 't', 'a', 'g', 'r', 'i', 'p'],
        "dataspell"@ == seq!['d', 'a', 't', 'a', 's', 'p', 'e', 'l', 'l'],
        "rubymine"@ == seq!['r', 'u', 'b', 'y', 'm', 'i', 'n', 'e'],
        "android-studio"@ == seq![
            'a',
            'n',
            'd',
            'r',
            'o',
            'i',
            'd',
            '-',
            's',
            't',
            'u',
            'd',
            'i',
            'o',
        ],
        "rustrover"@ == seq!['r', 'u', 's', 't', 'r', 'o', 'v', 'e', 'r'],
        "mps"@ == seq!['m', 'p', 's'],
{
    reveal_strlit("aqua");
    reveal_strlit("clion");
    reveal_strlit("idea");
    reveal_strlit("phpstorm");
    reveal_strlit("pycharm");
    reveal_strlit("rider");
    reveal_strlit("webstorm");
    reveal_strlit("goland");
    reveal_strlit("datagrip");
    reveal_strlit("dataspell");
    reveal_strlit("rubymine");
    reveal_strlit("android-studio");
    reveal_strlit("rustrover");
    reveal_strlit("mps");
    assert("aqua"@ =~= seq!['a', 'q', 'u', 'a']);
    assert("clion"@ =~= seq!['c', 'l', 'i', 'o', 'n']);
    assert("idea"@ =~= seq!['i', 'd', 'e', 'a']);
    assert("phpstorm"@ =~= seq!['p', 'h', 'p', 's', 't', 'o', 'r', 'm']);
    assert("pycharm"@ =~= seq!['p', 'y', 'c', 'h', 'a', 'r', 'm']);
    assert("rider"@ =~= seq!['r', 'i', 'd', 'e', 'r']);
    assert("webstorm"@ =~= seq!['w', 'e', 'b', 's', 't', 'o', 'r', 'm']);
    assert("goland"@ =~= seq!['g', 'o', 'l', 'a', 'n', 'd']);
    assert("datagrip"@ =~= seq!['d', 'a', 't', 'a', 'g', 'r', 'i', 'p']);
    assert("dataspell"@ =~= seq!['d', 'a', 't', 'a', 's', 'p', 'e', 'l', 'l']);
    assert("rubymine"@ =~= seq!['r', 'u', 'b', 'y', 'm', 'i', 'n', 'e']);
    assert("android-studio"@ =~= seq![
        'a',
        'n',
        'd',
        'r',
        'o',
        'i',
        'd',
        '-',
        's',
        't',
        'u',
        'd',
        'i',
        'o',
    ]);
    assert("rustrover"@ =~= seq!['r', 'u', 's', 't', 'r', 'o', 'v', 'e', 'r']);
    assert("mps"@ =~= seq!['m', 'p', 's']);
}

/// No two products share a default alias.
pub proof fn default_alias_is_injective(a: IDEType, b: IDEType)
    requires
        default_alias_of(a) == default_alias_of(b),
    ensures
        a == b,
{
    reveal_default_aliases();
    let x = default_alias_of(a);
    let y = default_alias_of(b);
    assert(x.len() == y.len());
    assert(x[0] == y[0]);
    assert(x[1] == y[1]);
    assert(x[2] == y[2]);
    if x.len() > 4 {
        assert(x[4] == y[4]);
    }
}

} // verus!
