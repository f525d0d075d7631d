use vstd::prelude::*;
use vstd::string::*;

use crate::model::{invalid_generator_message, missing_generator_message, parse_generator};
use crate::text::{labels, lookup};

verus! {

/// A CMake generator.
#[derive(PartialEq, Eq, Structural, Clone, Copy, Debug)]
pub enum Generator {
    VisualStudio2022,
    VisualStudio2019,
    VisualStudio2017,
    VisualStudio2015,
    BorlandMakefiles,
    NMakeMakefiles,
    NMakeMakefilesJOM,
    MSYSMakefiles,
    MinGWMakefiles,
    GreenHillsMulti,
    UnixMakefiles,
    Ninja,
    NinjaMulticonfig,
    WatcomWMake,
    CodeblocksMingw,
    CodeblocksNMake,
    CodeblocksNMakeJOM,
    CodeblocksNinja,
    CodeblocksUnixMake,
    CodeLiteMingw,
    CodeLiteNMake,
    CodeLiteNinja,
    CodeLiteUnixMake,
    EclipseCDT4NMake,
    EclipseCDT4MinGWMake,
    EclipseCDT4Ninja,
    EclipseCDT4UnixMake,
    KateMinGWMake,
    KateNMake,
    KateNinja,
    KateNinjaMulticonfig,
    KateUnixMake,
    SublimeMinGW,
    SublimeNMake,
    SublimeNinja,
    SublimeUnixMake,
}

/// The name CMake knows a generator by (its `-G` argument).
pub open spec fn generator_label(g: Generator) -> Seq<char> {
    match g {
        Generator::VisualStudio2022 => "Visual Studio 17 2022"@,
        Generator::VisualStudio2019 => "Visual Studio 16 2019"@,
        Generator::VisualStudio2017 => "Visual Studio 15 2017"@,
        Generator::VisualStudio2015 => "Visual Studio 14 2015"@,
        Generator::BorlandMakefiles => "Borland Makefiles"@,
        Generator::NMakeMakefiles => "NMake Makefiles"@,
        Generator::NMakeMakefilesJOM => "NMake Makefiles JOM"@,
        Generator::MSYSMakefiles => "MSYS Makefiles"@,
        Generator::MinGWMakefiles => "MinGW Makefiles"@,
        Generator::GreenHillsMulti => "Green Hill MULTI"@,
        Generator::UnixMakefiles => "Unix Makefiles"@,
        Generator::Ninja => "Ninja"@,
        Generator::NinjaMulticonfig => "Ninja Multi-Config"@,
        Generator::WatcomWMake => "Watcom WMake"@,
        Generator::CodeblocksMingw => "CodeBlocks - MinGW Makefiles"@,
        Generator::CodeblocksNMake => "CodeBlocks - NMake Makefiles"@,
        Generator::CodeblocksNMakeJOM => "CodeBlocks - NMake Makefiles JOM"@,
        Generator::CodeblocksNinja => "CodeBlocks - Ninja"@,
        Generator::CodeblocksUnixMake => "CodeBlocks - Unix Makefiles"@,
        Generator::CodeLiteMingw => "CodeLite - MinGW Makefiles"@,
        Generator::CodeLiteNMake => "CodeLite - NMake Makefiles"@,
        Generator::CodeLiteNinja => "CodeLite - Ninja"@,
        Generator::CodeLiteUnixMake => "CodeLite - Unix Makefiles"@,
        Generator::EclipseCDT4NMake => "Eclipse CDT4 - NMake Makefiles"@,
        Generator::EclipseCDT4MinGWMake => "Eclipse CDT4 - MinGW Makefiles"@,
        Generator::EclipseCDT4Ninja => "Eclipse CDT4 - Ninja"@,
        Generator::EclipseCDT4UnixMake => "Eclipse CDT4 - Unix Makefiles"@,
        Generator::KateMinGWMake => "Kate - MinGW Makefiles"@,
        Generator::KateNMake => "Kate - NMake Makefiles"@,
        Generator::KateNinja => "Kate - Ninja"@,
        Generator::KateNinjaMulticonfig => "Kate - Ninja Multi-Config"@,
        Generator::KateUnixMake => "Kate - Unix Makefiles"@,
        Generator::SublimeMinGW => "Sublime Text 2 - MinGW Makefiles"@,
        Generator::SublimeNMake => "Sublime Text 2 - NMake Makefiles"@,
        Generator::SublimeNinja => "Sublime Text 2 - Ninja"@,
        Generator::SublimeUnixMake => "Sublime Text 2 - Unix Makefiles"@,
    }
}

/// The generator named `s`.
pub open spec fn generator_of_label(s: Seq<char>) -> Option<Generator> {
    if s == "Visual Studio 17 2022"@ {
        Some(Generator::VisualStudio2022)
    } else if s == "Visual Studio 16 2019"@ {
        Some(Generator::VisualStudio2019)
    } else if s == "Visual Studio 15 2017"@ {
        Some(Generator::VisualStudio2017)
    } else if s == "Visual Studio 14 2015"@ {
        Some(Generator::VisualStudio2015)
    } else if s == "Borland Makefiles"@ {
        Some(Generator::BorlandMakefiles)
    } else if s == "NMake Makefiles"@ {
        Some(Generator::NMakeMakefiles)
    } else if s == "NMake Makefiles JOM"@ {
        Some(Generator::NMakeMakefilesJOM)
    } else if s == "MSYS Makefiles"@ {
        Some(Generator::MSYSMakefiles)
    } else if s == "MinGW Makefiles"@ {
        Some(Generator::MinGWMakefiles)
    } else if s == "Green Hill MULTI"@ {
        Some(Generator::GreenHillsMulti)
    } else if s == "Unix Makefiles"@ {
        Some(Generator::UnixMakefiles)
    } else if s == "Ninja"@ {
        Some(Generator::Ninja)
    } else if s == "Ninja Multi-Config"@ {
        Some(Generator::NinjaMulticonfig)
    } else if s == "Watcom WMake"@ {
        Some(Generator::WatcomWMake)
    } else if s == "CodeBlocks - MinGW Makefiles"@ {
        Some(Generator::CodeblocksMingw)
    } else if s == "CodeBlocks - NMake Makefiles"@ {
        Some(Generator::CodeblocksNMake)
    } else if s == "CodeBlocks - NMake Makefiles JOM"@ {
        Some(Generator::CodeblocksNMakeJOM)
    } else if s == "CodeBlocks - Ninja"@ {
        Some(Generator::CodeblocksNinja)
    } else if s == "CodeBlocks - Unix Makefiles"@ {
        Some(Generator::CodeblocksUnixMake)
    } else if s == "CodeLite - MinGW Makefiles"@ {
        Some(Generator::CodeLiteMingw)
    } else if s == "CodeLite - NMake Makefiles"@ {
        Some(Generator::CodeLiteNMake)
    } else if s == "CodeLite - Ninja"@ {
        Some(Generator::CodeLiteNinja)
    } else if s == "CodeLite - Unix Makefiles"@ {
        Some(Generator::CodeLiteUnixMake)
    } else if s == "Eclipse CDT4 - NMake Makefiles"@ {
        Some(Generator::EclipseCDT4NMake)
    } else if s == "Eclipse CDT4 - MinGW Makefiles"@ {
        Some(Generator::EclipseCDT4MinGWMake)
    } else if s == "Eclipse CDT4 - Ninja"@ {
        Some(Generator::EclipseCDT4Ninja)
    } else if s == "Eclipse CDT4 - Unix Makefiles"@ {
        Some(Generator::EclipseCDT4UnixMake)
    } else if s == "Kate - MinGW Makefiles"@ {
        Some(Generator::KateMinGWMake)
    } else if s == "Kate - NMake Makefiles"@ {
        Some(Generator::KateNMake)
    } else if s == "Kate - Ninja"@ {
        Some(Generator::KateNinja)
    } else if s == "Kate - Ninja Multi-Config"@ {
        Some(Generator::KateNinjaMulticonfig)
    } else if s == "Kate - Unix Makefiles"@ {
        Some(Generator::KateUnixMake)
    } else if s == "Sublime Text 2 - MinGW Makefiles"@ {
        Some(Generator::SublimeMinGW)
    } else if s == "Sublime Text 2 - NMake Makefiles"@ {
        Some(Generator::SublimeNMake)
    } else if s == "Sublime Text 2 - Ninja"@ {
        Some(Generator::SublimeNinja)
    } else if s == "Sublime Text 2 - Unix Makefiles"@ {
        Some(Generator::SublimeUnixMake)
    } else {
        None
    }
}

impl Generator {
    /// All generator names, in the order `try_from` tries them.
    pub open spec fn labels() -> Seq<Seq<char>> {
        seq![
        "Visual Studio 17 2022"@,
        "Visual Studio 16 2019"@,
        "Visual Studio 15 2017"@,
        "Visual Studio 14 2015"@,
        "Borland Makefiles"@,
        "NMake Makefiles"@,
        "NMake Makefiles JOM"@,
        "MSYS Makefiles"@,
        "MinGW Makefiles"@,
        "Green Hill MULTI"@,
        "Unix Makefiles"@,
        "Ninja"@,
        "Ninja Multi-Config"@,
        "Watcom WMake"@,
        "CodeBlocks - MinGW Makefiles"@,
        "CodeBlocks - NMake Makefiles"@,
        "CodeBlocks - NMake Makefiles JOM"@,
        "CodeBlocks - Ninja"@,
        "CodeBlocks - Unix Makefiles"@,
        "CodeLite - MinGW Makefiles"@,
        "CodeLite - NMake Makefiles"@,
        "CodeLite - Ninja"@,
        "CodeLite - Unix Makefiles"@,
        "Eclipse CDT4 - NMake Makefiles"@,
        "Eclipse CDT4 - MinGW Makefiles"@,
        "Eclipse CDT4 - Ninja"@,
        "Eclipse CDT4 - Unix Makefiles"@,
        "Kate - MinGW Makefiles"@,
        "Kate - NMake Makefiles"@,
        "Kate - Ninja"@,
        "Kate - Ninja Multi-Config"@,
        "Kate - Unix Makefiles"@,
        "Sublime Text 2 - MinGW Makefiles"@,
        "Sublime Text 2 - NMake Makefiles"@,
        "Sublime Text 2 - Ninja"@,
        "Sublime Text 2 - Unix Makefiles"@
        ]
    }

    /// The name CMake knows this generator by.
    pub fn label(&self) -> (r: &'static str)
        ensures
            r@ == generator_label(*self),
    {
        match self {
            Generator::VisualStudio2022 => "Visual Studio 17 2022",
            Generator::VisualStudio2019 => "Visual Studio 16 2019",
            Generator::VisualStudio2017 => "Visual Studio 15 2017",
            Generator::VisualStudio2015 => "Visual Studio 14 2015",
            Generator::BorlandMakefiles => "Borland Makefiles",
            Generator::NMakeMakefiles => "NMake Makefiles",
            Generator::NMakeMakefilesJOM => "NMake Makefiles JOM",
            Generator::MSYSMakefiles => "MSYS Makefiles",
            Generator::MinGWMakefiles => "MinGW Makefiles",
            Generator::GreenHillsMulti => "Green Hill MULTI",
            Generator::UnixMakefiles => "Unix Makefiles",
            Generator::Ninja => "Ninja",
            Generator::NinjaMulticonfig => "Ninja Multi-Config",
            Generator::WatcomWMake => "Watcom WMake",
            Generator::CodeblocksMingw => "CodeBlocks - MinGW Makefiles",
            Generator::CodeblocksNMake => "CodeBlocks - NMake Makefiles",
            Generator::CodeblocksNMakeJOM => "CodeBlocks - NMake Makefiles JOM",
            Generator::CodeblocksNinja => "CodeBlocks - Ninja",
            Generator::CodeblocksUnixMake => "CodeBlocks - Unix Makefiles",
            Generator::CodeLiteMingw => "CodeLite - MinGW Makefiles",
            Generator::CodeLiteNMake => "CodeLite - NMake Makefiles",
            Generator::CodeLiteNinja => "CodeLite - Ninja",
            Generator::CodeLiteUnixMake => "CodeLite - Unix Makefiles",
            Generator::EclipseCDT4NMake => "Eclipse CDT4 - NMake Makefiles",
            Generator::EclipseCDT4MinGWMake => "Eclipse CDT4 - MinGW Makefiles",
            Generator::EclipseCDT4Ninja => "Eclipse CDT4 - Ninja",
            Generator::EclipseCDT4UnixMake => "Eclipse CDT4 - Unix Makefiles",
            Generator::KateMinGWMake => "Kate - MinGW Makefiles",
            Generator::KateNMake => "Kate - NMake Makefiles",
            Generator::KateNinja => "Kate - Ninja",
            Generator::KateNinjaMulticonfig => "Kate - Ninja Multi-Config",
            Generator::KateUnixMake => "Kate - Unix Makefiles",
            Generator::SublimeMinGW => "Sublime Text 2 - MinGW Makefiles",
            Generator::SublimeNMake => "Sublime Text 2 - NMake Makefiles",
            Generator::SublimeNinja => "Sublime Text 2 - Ninja",
            Generator::SublimeUnixMake => "Sublime Text 2 - Unix Makefiles",
        }
    }

    /// Reads a generator's CMake name, exactly as written.
    pub fn try_from(value: &str) -> (r: Result<Generator, String>)
        ensures
            value@.len() == 0 ==> (r matches Err(m) && m@ == missing_generator_message(Self::labels())),
            value@.len() > 0 ==> match generator_of_label(value@) {
                Some(g) => r == Ok::<Generator, String>(g),
                None => r matches Err(m) && m@ == invalid_generator_message(Self::labels()),
            },
    {
        let pairs = [
            (Generator::VisualStudio2022, "Visual Studio 17 2022"),
            (Generator::VisualStudio2019, "Visual Studio 16 2019"),
            (Generator::VisualStudio2017, "Visual Studio 15 2017"),
            (Generator::VisualStudio2015, "Visual Studio 14 2015"),
            (Generator::BorlandMakefiles, "Borland Makefiles"),
            (Generator::NMakeMakefiles, "NMake Makefiles"),
            (Generator::NMakeMakefilesJOM, "NMake Makefiles JOM"),
            (Generator::MSYSMakefiles, "MSYS Makefiles"),
            (Generator::MinGWMakefiles, "MinGW Makefiles"),
            (Generator::GreenHillsMulti, "Green Hill MULTI"),
            (Generator::UnixMakefiles, "Unix Makefiles"),
            (Generator::Ninja, "Ninja"),
            (Generator::NinjaMulticonfig, "Ninja Multi-Config"),
            (Generator::WatcomWMake, "Watcom WMake"),
            (Generator::CodeblocksMingw, "CodeBlocks - MinGW Makefiles"),
            (Generator::CodeblocksNMake, "CodeBlocks - NMake Makefiles"),
            (Generator::CodeblocksNMakeJOM, "CodeBlocks - NMake Makefiles JOM"),
            (Generator::CodeblocksNinja, "CodeBlocks - Ninja"),
            (Generator::CodeblocksUnixMake, "CodeBlocks - Unix Makefiles"),
            (Generator::CodeLiteMingw, "CodeLite - MinGW Makefiles"),
            (Generator::CodeLiteNMake, "CodeLite - NMake Makefiles"),
            (Generator::CodeLiteNinja, "CodeLite - Ninja"),
            (Generator::CodeLiteUnixMake, "CodeLite - Unix Makefiles"),
            (Generator::EclipseCDT4NMake, "Eclipse CDT4 - NMake Makefiles"),
            (Generator::EclipseCDT4MinGWMake, "Eclipse CDT4 - MinGW Makefiles"),
            (Generator::EclipseCDT4Ninja, "Eclipse CDT4 - Ninja"),
            (Generator::EclipseCDT4UnixMake, "Eclipse CDT4 - Unix Makefiles"),
            (Generator::KateMinGWMake, "Kate - MinGW Makefiles"),
            (Generator::KateNMake, "Kate - NMake Makefiles"),
            (Generator::KateNinja, "Kate - Ninja"),
            (Generator::KateNinjaMulticonfig, "Kate - Ninja Multi-Config"),
            (Generator::KateUnixMake, "Kate - Unix Makefiles"),
            (Generator::SublimeMinGW, "Sublime Text 2 - MinGW Makefiles"),
            (Generator::SublimeNMake, "Sublime Text 2 - NMake Makefiles"),
            (Generator::SublimeNinja, "Sublime Text 2 - Ninja"),
            (Generator::SublimeUnixMake, "Sublime Text 2 - Unix Makefiles"),
        ];
        proof {
            reveal_with_fuel(lookup, 37);
            assert(labels(pairs@) =~= Self::labels());
        }
        parse_generator(value, pairs.as_slice())
    }
}

} // verus!
