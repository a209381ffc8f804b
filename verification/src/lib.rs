//! Driver images: the naming convention that identifies them, the
//! aggregation of raw image records with their snapshots, and the state of
//! the interactive result browser.

use crate::text::{is_lowercase, lowercase};
use vstd::prelude::*;

pub mod aws;
pub mod driverimage;
pub mod imagedata;
pub mod subcommands;
pub mod tabledimage;
pub mod text;
pub mod ui;

verus! {

/// Source language of a driver image.
#[derive(Clone, Copy, Debug, PartialEq, Eq)]
pub enum ImageLang {
    Java,
    Python,
    Nodejs,
    Cpp,
    Csharp,
}

/// Target platform of a driver image.
#[derive(Clone, Copy, Debug, PartialEq, Eq)]
pub enum ImagePlatform {
    Bionic,
    Focal,
    Jammy,
    Rocky8,
    Rocky9,
    Windows,
}

impl ImageLang {
    /// The name under which the language is displayed: that of its variant.
    pub open spec fn display_name(self) -> Seq<char> {
        match self {
            ImageLang::Java => "Java"@,
            ImageLang::Python => "Python"@,
            ImageLang::Nodejs => "Nodejs"@,
            ImageLang::Cpp => "Cpp"@,
            ImageLang::Csharp => "Csharp"@,
        }
    }

    /// The displayed name of the language.
    pub fn to_string(&self) -> (name: String)
        ensures
            name@ == self.display_name(),
    {
        match self {
            ImageLang::Java => "Java".to_owned(),
            ImageLang::Python => "Python".to_owned(),
            ImageLang::Nodejs => "Nodejs".to_owned(),
            ImageLang::Cpp => "Cpp".to_owned(),
            ImageLang::Csharp => "Csharp".to_owned(),
        }
    }
}

impl ImagePlatform {
    /// The name under which the platform is displayed: that of its variant.
    pub open spec fn display_name(self) -> Seq<char> {
        match self {
            ImagePlatform::Bionic => "Bionic"@,
            ImagePlatform::Focal => "Focal"@,
            ImagePlatform::Jammy => "Jammy"@,
            ImagePlatform::Rocky8 => "Rocky8"@,
            ImagePlatform::Rocky9 => "Rocky9"@,
            ImagePlatform::Windows => "Windows"@,
        }
    }

    /// The displayed name of the platform.
    pub fn to_string(&self) -> (name: String)
        ensures
            name@ == self.display_name(),
    {
        match self {
            ImagePlatform::Bionic => "Bionic".to_owned(),
            ImagePlatform::Focal => "Focal".to_owned(),
            ImagePlatform::Jammy => "Jammy".to_owned(),
            ImagePlatform::Rocky8 => "Rocky8".to_owned(),
            ImagePlatform::Rocky9 => "Rocky9".to_owned(),
            ImagePlatform::Windows => "Windows".to_owned(),
        }
    }
}

impl ImageLang {
    /// The name of the language in the names of its driver images.
    pub open spec fn pattern_name(self) -> Seq<char> {
        match self {
            ImageLang::Java => "java"@,
            ImageLang::Python => "python"@,
            ImageLang::Nodejs => "nodejs"@,
            ImageLang::Cpp => "cpp"@,
            ImageLang::Csharp => "csharp"@,
        }
    }

    /// The name of a language in the names of its driver images is its
    /// displayed name in lower case.
    pub proof fn lemma_pattern_name(self)
        ensures
            lowercase(self.display_name()) == self.pattern_name(),
            is_lowercase(self.pattern_name()),
    {
        reveal_strlit("Java");
        reveal_strlit("Python");
        reveal_strlit("Nodejs");
        reveal_strlit("Cpp");
        reveal_strlit("Csharp");
        reveal_strlit("java");
        reveal_strlit("python");
        reveal_strlit("nodejs");
        reveal_strlit("cpp");
        reveal_strlit("csharp");
    }
}

impl ImagePlatform {
    /// The name of the platform in the names of its driver images.
    pub open spec fn pattern_name(self) -> Seq<char> {
        match self {
            ImagePlatform::Bionic => "bionic"@,
            ImagePlatform::Focal => "focal"@,
            ImagePlatform::Jammy => "jammy"@,
            ImagePlatform::Rocky8 => "rocky8"@,
            ImagePlatform::Rocky9 => "rocky9"@,
            ImagePlatform::Windows => "windows"@,
        }
    }

    /// The name of a platform in the names of its driver images is its
    /// displayed name in lower case.
    pub proof fn lemma_pattern_name(self)
        ensures
            lowercase(self.display_name()) == self.pattern_name(),
            is_lowercase(self.pattern_name()),
    {
        reveal_strlit("Bionic");
        reveal_strlit("Focal");
        reveal_strlit("Jammy");
        reveal_strlit("Rocky8");
        reveal_strlit("Rocky9");
        reveal_strlit("Windows");
        reveal_strlit("bionic");
        reveal_strlit("focal");
        reveal_strlit("jammy");
        reveal_strlit("rocky8");
        reveal_strlit("rocky9");
        reveal_strlit("windows");
    }
}

} // verus!
