//! Package identity read from a project manifest.
//!
//! A manifest may carry a `package` table, a `workspace` table, or both;
//! each holds a `name` and a `version` string.  Lookups prefer the
//! `package` table and fall back to the `workspace` table, so the same
//! resolution works in workspace and non-workspace projects alike.

use vstd::prelude::*;

verus! {

/// The mathematical content of one manifest table: its name and version.
pub struct PackageView {
    pub name: Seq<char>,
    pub version: Seq<char>,
}

/// The mathematical content of a manifest: the two optional tables.
pub struct ManifestView {
    pub package: Option<PackageView>,
    pub workspace: Option<PackageView>,
}

impl ManifestView {
    /// The table that lookups use: `package` if present, else `workspace`.
    pub open spec fn package_section(self) -> Option<PackageView> {
        if self.package is Some {
            self.package
        } else {
            self.workspace
        }
    }

    /// The resolved package name, if any table carries one.
    pub open spec fn name(self) -> Option<Seq<char>> {
        match self.package_section() {
            Some(p) => Some(p.name),
            None => None,
        }
    }

    /// The resolved package version, if any table carries one.
    pub open spec fn version(self) -> Option<Seq<char>> {
        match self.package_section() {
            Some(p) => Some(p.version),
            None => None,
        }
    }
}

/// One manifest table: a package name and version.
#[derive(Debug, Clone, PartialEq)]
pub struct CargoPackage {
    pub name: String,
    pub version: String,
}

impl View for CargoPackage {
    type V = PackageView;

    open spec fn view(&self) -> PackageView {
        PackageView { name: self.name@, version: self.version@ }
    }
}

/// The subset of a manifest that annotation needs: the optional `package`
/// and `workspace` tables.
#[derive(Debug, Clone, PartialEq)]
pub struct CargoToml {
    pub package: Option<CargoPackage>,
    pub workspace: Option<CargoPackage>,
}

impl View for CargoToml {
    type V = ManifestView;

    open spec fn view(&self) -> ManifestView {
        ManifestView {
            package: match self.package {
                Some(p) => Some(p@),
                None => None,
            },
            workspace: match self.workspace {
                Some(p) => Some(p@),
                None => None,
            },
        }
    }
}

/// The manifest content that parsing yields for a given input text, or
/// `None` where the text is not a well-formed manifest.
pub uninterp spec fn manifest_view_of(s: Seq<char>) -> Option<ManifestView>;

/// Relies on `toml::from_str`: parses the manifest text into a table and
/// reads the `package` and `workspace` tables' `name` and `version`
/// strings.  The outcome depends on the input characters alone.
#[verifier::external_body]
fn parse_manifest_str(s: &str) -> (r: Result<CargoToml, String>)
    ensures
        match r {
            Ok(t) => manifest_view_of(s@) == Some(t@),
            Err(_) => manifest_view_of(s@) is None,
        },
{
    let table: toml::Table = match toml::from_str(s) {
        Ok(t) => t,
        Err(e) => return Err(e.to_string()),
    };
    let section = |key: &str| -> Option<CargoPackage> {
        let t = table.get(key)?.as_table()?;
        Some(CargoPackage {
            name: t.get("name")?.as_str()?.to_owned(),
            version: t.get("version")?.as_str()?.to_owned(),
        })
    };
    Ok(CargoToml { package: section("package"), workspace: section("workspace") })
}

/// The error for a manifest text that does not parse; its message is the
/// parser's own description of the fault.
#[derive(Debug, Clone, PartialEq)]
pub struct ManifestParseError {
    pub message: String,
}

/// Parses a manifest text into the two tables that annotation reads.
/// Fails exactly on texts that are not well-formed manifests.
pub fn parse_cargo_toml(s: &str) -> (r: Result<CargoToml, ManifestParseError>)
    ensures
        match r {
            Ok(t) => manifest_view_of(s@) == Some(t@),
            Err(_) => manifest_view_of(s@) is None,
        },
{
    match parse_manifest_str(s) {
        Ok(t) => Ok(t),
        Err(message) => Err(ManifestParseError { message }),
    }
}

impl CargoToml {
    /// The table that lookups use, preferring `package` over `workspace`,
    /// which lets the same resolution serve workspace and non-workspace
    /// projects without configuration.
    pub fn package(&self) -> (r: Option<&CargoPackage>)
        ensures
            match r {
                Some(p) => self@.package_section() == Some(p@),
                None => self@.package_section() is None,
            },
    {
        match &self.package {
            Some(p) => Some(p),
            None => self.workspace.as_ref(),
        }
    }

    /// The resolved package name, from the preferred table.
    pub fn name(&self) -> (r: Option<&str>)
        ensures
            match r {
                Some(s) => self@.name() == Some(s@),
                None => self@.name() is None,
            },
    {
        match self.package() {
            Some(p) => Some(p.name.as_str()),
            None => None,
        }
    }

    /// The resolved package version, from the preferred table.
    pub fn version(&self) -> (r: Option<&str>)
        ensures
            match r {
                Some(s) => self@.version() == Some(s@),
                None => self@.version() is None,
            },
    {
        match self.package() {
            Some(p) => Some(p.version.as_str()),
            None => None,
        }
    }
}

} // verus!
