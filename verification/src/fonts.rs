//! The font catalog builder: assembles a queryable font database from system
//! fonts (optional), explicit font files and font directories, and binds the
//! five generic families.
//!
//! The catalog lives in an outside font database. Its observable content is
//! modelled by two names: `face_lines`, the descriptor lines of the
//! file-backed faces it holds, and `generic_families`, the five generic
//! family bindings in the order serif, sans-serif, cursive, fantasy,
//! monospace.

use vstd::prelude::*;
use crate::errors::RenderError;
use crate::plan::FontProperties;

verus! {

#[verifier::external_type_specification]
#[verifier::external_body]
pub struct ExFontDatabase(usvg::fontdb::Database);

/// The descriptor lines of the file-backed font faces a database holds, in
/// the database's own face order.
pub uninterp spec fn face_lines(db: usvg::fontdb::Database) -> Seq<Seq<char>>;

/// The five generic family bindings of a database, in the order serif,
/// sans-serif, cursive, fantasy, monospace.
pub uninterp spec fn generic_families(db: usvg::fontdb::Database) -> Seq<Seq<char>>;

/// Relies on fontdb::Database::new: creates an empty database, so it has no
/// faces; its five generic families carry default bindings.
#[verifier::external_body]
fn db_new() -> (r: usvg::fontdb::Database)
    ensures
        face_lines(r) == Seq::<Seq<char>>::empty(),
        generic_families(r).len() == 5,
{
    usvg::fontdb::Database::new()
}

/// Relies on fontdb::Database::load_system_fonts: scans the system font
/// directories; it only adds faces and leaves the family bindings alone.
#[verifier::external_body]
fn db_load_system_fonts(db: &mut usvg::fontdb::Database)
    ensures
        generic_families(*final(db)) == generic_families(*old(db)),
{
    db.load_system_fonts();
}

/// Relies on fontdb::Database::load_font_file: loads every face of one font
/// file; an unreadable file gives an error before anything is modified, and
/// the family bindings are never touched.
#[verifier::external_body]
fn db_load_font_file(db: &mut usvg::fontdb::Database, path: &String) -> (r: Result<(), String>)
    ensures
        generic_families(*final(db)) == generic_families(*old(db)),
        r is Err ==> face_lines(*final(db)) == face_lines(*old(db)),
{
    db.load_font_file(path.as_str()).map_err(|e| e.to_string())
}

/// Relies on fontdb::Database::load_fonts_dir: scans one directory for fonts,
/// best effort, reporting nothing; the family bindings are never touched.
#[verifier::external_body]
fn db_load_fonts_dir(db: &mut usvg::fontdb::Database, path: &String)
    ensures
        generic_families(*final(db)) == generic_families(*old(db)),
{
    db.load_fonts_dir(path.as_str());
}

/// Relies on fontdb::Database::set_serif_family: rebinds the serif family and
/// changes nothing else.
#[verifier::external_body]
fn db_set_serif_family(db: &mut usvg::fontdb::Database, family: &String)
    ensures
        face_lines(*final(db)) == face_lines(*old(db)),
        generic_families(*final(db)) == generic_families(*old(db)).update(0, family@),
{
    db.set_serif_family(family.clone());
}

/// Relies on fontdb::Database::set_sans_serif_family: rebinds the sans-serif
/// family and changes nothing else.
#[verifier::external_body]
fn db_set_sans_serif_family(db: &mut usvg::fontdb::Database, family: &String)
    ensures
        face_lines(*final(db)) == face_lines(*old(db)),
        generic_families(*final(db)) == generic_families(*old(db)).update(1, family@),
{
    db.set_sans_serif_family(family.clone());
}

/// Relies on fontdb::Database::set_cursive_family: rebinds the cursive family
/// and changes nothing else.
#[verifier::external_body]
fn db_set_cursive_family(db: &mut usvg::fontdb::Database, family: &String)
    ensures
        face_lines(*final(db)) == face_lines(*old(db)),
        generic_families(*final(db)) == generic_families(*old(db)).update(2, family@),
{
    db.set_cursive_family(family.clone());
}

/// Relies on fontdb::Database::set_fantasy_family: rebinds the fantasy family
/// and changes nothing else.
#[verifier::external_body]
fn db_set_fantasy_family(db: &mut usvg::fontdb::Database, family: &String)
    ensures
        face_lines(*final(db)) == face_lines(*old(db)),
        generic_families(*final(db)) == generic_families(*old(db)).update(3, family@),
{
    db.set_fantasy_family(family.clone());
}

/// Relies on fontdb::Database::set_monospace_family: rebinds the monospace
/// family and changes nothing else.
#[verifier::external_body]
fn db_set_monospace_family(db: &mut usvg::fontdb::Database, family: &String)
    ensures
        face_lines(*final(db)) == face_lines(*old(db)),
        generic_families(*final(db)) == generic_families(*old(db)).update(4, family@),
{
    db.set_monospace_family(family.clone());
}

/// Relies on fontdb::Database::faces and fontdb::Source: lists one descriptor
/// line per file-backed face, in face order, as
/// `path: 'family (lang, region)', ..., index, style, weight, stretch`.
#[verifier::external_body]
fn db_face_lines(db: &usvg::fontdb::Database) -> (r: Vec<String>)
    ensures
        r.deep_view() == face_lines(*db),
{
    db.faces().filter_map(|face| match &face.source {
        usvg::fontdb::Source::File(path) => {
            let families: Vec<String> = face.families.iter().map(
                |f| format!("{} ({}, {})", f.0, f.1.primary_language(), f.1.region()),
            ).collect();
            Some(format!(
                "{}: '{}', {}, {:?}, {:?}, {:?}",
                path.display(), families.join("', '"), face.index, face.style, face.weight.0,
                face.stretch,
            ))
        },
        _ => None,
    }).collect()
}

/// The binding a generic family ends up with: the caller-supplied name, or
/// the fixed default for that family.
pub open spec fn family_or(choice: Option<String>, default: Seq<char>) -> Seq<char> {
    if choice is Some {
        choice.unwrap()@
    } else {
        default
    }
}

/// The five generic family bindings a catalog built from these settings must
/// carry, in the order serif, sans-serif, cursive, fantasy, monospace.
pub open spec fn expected_families(settings: FontProperties) -> Seq<Seq<char>> {
    seq![
        family_or(settings.serif_family, "Times New Roman"@),
        family_or(settings.sans_serif_family, "Arial"@),
        family_or(settings.cursive_family, "Comic Sans MS"@),
        family_or(settings.fantasy_family, "Impact"@),
        family_or(settings.monospace_family, "Courier New"@),
    ]
}

/// Whether settings ask for nothing: no system scan, no files, no directories.
pub open spec fn loads_nothing(settings: FontProperties) -> bool {
    &&& settings.skip_system_fonts
    &&& settings.font_files@.len() == 0
    &&& settings.font_dirs@.len() == 0
}

/// Builds a fresh font catalog: scans system fonts unless the skip flag is
/// set, loads each explicit font file failing fast on the first unreadable
/// one, loads each font directory best-effort, and binds the five generic
/// families to the caller-supplied names or the fixed defaults.
///
/// Each call builds an independent catalog; nothing is shared across calls.
pub fn build_catalog(settings: &FontProperties) -> (r: Result<usvg::fontdb::Database, RenderError>)
    ensures
        r is Ok ==> generic_families(r.unwrap()) =~= expected_families(*settings),
        loads_nothing(*settings) ==> r is Ok && face_lines(r.unwrap()) =~= Seq::<Seq<char>>::empty(),
        r is Err ==> (r.unwrap_err() matches RenderError::FontFile { path, .. } && exists|i: int|
            0 <= i < settings.font_files@.len() && settings.font_files@[i] == path),
{
    let mut db = db_new();

    if !settings.skip_system_fonts {
        db_load_system_fonts(&mut db);
    }

    let mut i: usize = 0;
    while i < settings.font_files.len()
        invariant
            i <= settings.font_files@.len(),
            generic_families(db).len() == 5,
            loads_nothing(*settings) ==> face_lines(db) == Seq::<Seq<char>>::empty(),
        decreases settings.font_files@.len() - i,
    {
        let path = &settings.font_files[i];
        match db_load_font_file(&mut db, path) {
            Ok(_) => {},
            Err(message) => {
                return Err(RenderError::FontFile { path: path.clone(), message });
            },
        }
        i = i + 1;
    }

    let mut j: usize = 0;
    while j < settings.font_dirs.len()
        invariant
            j <= settings.font_dirs@.len(),
            generic_families(db).len() == 5,
            loads_nothing(*settings) ==> face_lines(db) == Seq::<Seq<char>>::empty(),
        decreases settings.font_dirs@.len() - j,
    {
        db_load_fonts_dir(&mut db, &settings.font_dirs[j]);
        j = j + 1;
    }

    let serif = family_name(&settings.serif_family, "Times New Roman");
    let sans_serif = family_name(&settings.sans_serif_family, "Arial");
    let cursive = family_name(&settings.cursive_family, "Comic Sans MS");
    let fantasy = family_name(&settings.fantasy_family, "Impact");
    let monospace = family_name(&settings.monospace_family, "Courier New");
    db_set_serif_family(&mut db, &serif);
    db_set_sans_serif_family(&mut db, &sans_serif);
    db_set_cursive_family(&mut db, &cursive);
    db_set_fantasy_family(&mut db, &fantasy);
    db_set_monospace_family(&mut db, &monospace);

    Ok(db)
}

/// The concrete name for one generic family: the caller's choice when given,
/// otherwise the fixed default.
fn family_name(choice: &Option<String>, default: &str) -> (r: String)
    ensures
        r@ == family_or(*choice, default@),
{
    match choice {
        Some(name) => name.clone(),
        None => default.to_owned(),
    }
}

/// Builds the font catalog for a document only when the document needs one:
/// a document without text-drawing elements never pays for catalog
/// construction, and in particular triggers no system font scan.
pub fn catalog_for_document(has_text: bool, settings: &FontProperties) -> (r: Result<
    Option<usvg::fontdb::Database>,
    RenderError,
>)
    ensures
        !has_text ==> (r matches Ok(db) && db is None),
        has_text && r is Ok ==> r.unwrap() is Some,
        r is Err ==> (r.unwrap_err() matches RenderError::FontFile { path, .. } && exists|i: int|
            0 <= i < settings.font_files@.len() && settings.font_files@[i] == path),
{
    if has_text {
        match build_catalog(settings) {
            Ok(db) => Ok(Some(db)),
            Err(e) => Err(e),
        }
    } else {
        Ok(None)
    }
}

/// Lists the font descriptor lines of a catalog built from these settings:
/// one line per file-backed face. Settings that load nothing yield the empty
/// list, since family bindings without a backing file list nothing.
pub fn collect_font_lines(settings: &FontProperties) -> (r: Result<Vec<String>, RenderError>)
    ensures
        loads_nothing(*settings) ==> r is Ok && r.unwrap().deep_view() =~= Seq::<Seq<char>>::empty(),
        r is Err ==> (r.unwrap_err() matches RenderError::FontFile { path, .. } && exists|i: int|
            0 <= i < settings.font_files@.len() && settings.font_files@[i] == path),
{
    match build_catalog(settings) {
        Ok(db) => Ok(db_face_lines(&db)),
        Err(e) => Err(e),
    }
}

} // verus!
