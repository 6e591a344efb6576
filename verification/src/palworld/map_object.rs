//! Map objects: their embedded data is read with the help of sibling
//! properties (the object id, and each module's type).
use vstd::prelude::*;
use crate::error::Error;
use crate::properties::{Properties, PropertyView};
use crate::property_values::{find_property, struct_fields, byte_array_value, string_value, struct_map_entries, entries_view};
use crate::palworld::build_process::{PalBuildProcess, PalBuildProcessView, parse_build_process, build_process_error};
use crate::palworld::connector::{PalConnector, PalConnectorView, parse_connector};
use crate::palworld::map_model::{PalMapModel, PalMapModelView, parse_map_model};
use crate::palworld::map_concrete_model_module::{PalMapConcreteModelModule, ModuleDataView, parse_module_data, module_data_error};
use crate::bytes::Reader;

verus! {

/// The data embedded in a map object's properties. The concrete model's
/// `ConcreteModel.RawData` is not read: its layout is not known to this
/// library, so it stays in the properties as raw bytes.
#[derive(Debug, PartialEq, Eq)]
pub struct MapObjectData {
    /// The object's id, from its `MapObjectId` property.
    pub map_object_id: String,
    /// `Model.RawData`.
    pub model: Option<PalMapModel>,
    /// `Model.Connector.RawData`, when not empty.
    pub connector: Option<PalConnector>,
    /// `Model.BuildProcess.RawData`, when not empty.
    pub build_process: Option<PalBuildProcess>,
    /// The modules of `ConcreteModel.ModuleMap` whose raw data is not empty, in map order.
    pub modules: Vec<PalMapConcreteModelModule>,
}

/// A module's model: its type, its payload and its custom version data.
pub type ModuleView = (Seq<char>, ModuleDataView, Seq<u8>);

/// Model of [`MapObjectData`].
pub ghost struct MapObjectView {
    pub map_object_id: Seq<char>,
    pub model: Option<PalMapModelView>,
    pub connector: Option<PalConnectorView>,
    pub build_process: Option<PalBuildProcessView>,
    pub modules: Seq<ModuleView>,
}

/// The model of a module.
pub open spec fn module_view(m: PalMapConcreteModelModule) -> ModuleView {
    (m.module_type@, m.data@, m.custom_version_data@)
}

/// The models of an optional value.
pub open spec fn opt_view<T: View>(o: Option<T>) -> Option<T::V> {
    match o {
        Some(x) => Some(x@),
        None => None,
    }
}

impl View for MapObjectData {
    type V = MapObjectView;

    open spec fn view(&self) -> MapObjectView {
        MapObjectView {
            map_object_id: self.map_object_id@,
            model: opt_view(self.model),
            connector: opt_view(self.connector),
            build_process: opt_view(self.build_process),
            modules: self.modules@.map_values(|m: PalMapConcreteModelModule| module_view(m)),
        }
    }
}

/// The object id: the text of the `MapObjectId` property, which must be a
/// string or a name.
pub open spec fn object_id_of(ps: Seq<PropertyView>) -> Option<Seq<char>> {
    match find_property(ps, "MapObjectId"@) {
        Some(p) => string_value(p),
        None => None,
    }
}

/// The fields of the struct property `name`, if it is a struct of fields.
pub open spec fn fields_of(ps: Seq<PropertyView>, name: Seq<char>) -> Option<Seq<PropertyView>> {
    match find_property(ps, name) {
        Some(p) => struct_fields(p),
        None => None,
    }
}

/// The bytes of the `RawData` byte array among the fields, if any.
pub open spec fn raw_data_of(fs: Seq<PropertyView>) -> Option<Seq<u8>> {
    match find_property(fs, "RawData"@) {
        Some(p) => byte_array_value(p),
        None => None,
    }
}

/// The `RawData` bytes of the struct field `name`, if any.
pub open spec fn nested_raw_data(fs: Seq<PropertyView>, name: Seq<char>) -> Option<Seq<u8>> {
    match fields_of(fs, name) {
        Some(gs) => raw_data_of(gs),
        None => None,
    }
}

/// A part read from optional raw data: absent without the data (or, when
/// `skip_empty`, with empty data), else the parse, whose failure (`None`) is
/// an error.
pub open spec fn read_part<V>(raw: Option<Seq<u8>>, skip_empty: bool, parsed: spec_fn(Seq<u8>) -> Option<V>) -> Option<
    Option<V>,
> {
    match raw {
        None => Some(None),
        Some(b) => if skip_empty && b.len() == 0 {
            Some(None)
        } else {
            match parsed(b) {
                Some(v) => Some(Some(v)),
                None => None,
            }
        },
    }
}

/// The custom version data of a module: its `CustomVersionData` byte array, or no bytes.
pub open spec fn custom_version_data_of(fs: Seq<PropertyView>) -> Seq<u8> {
    match find_property(fs, "CustomVersionData"@) {
        Some(p) => match byte_array_value(p) {
            Some(b) => b,
            None => Seq::empty(),
        },
        None => Seq::empty(),
    }
}

/// The module that a module map entry holds: none when its raw data is
/// missing or empty; an error (`None`) when the data does not read.
pub open spec fn module_of(e: (Seq<char>, Seq<PropertyView>)) -> Option<Option<ModuleView>> {
    match raw_data_of(e.1) {
        None => Some(None),
        Some(b) => if b.len() == 0 {
            Some(None)
        } else {
            match parse_module_data(e.0, b) {
                Some(d) => Some(Some((e.0, d, custom_version_data_of(e.1)))),
                None => None,
            }
        },
    }
}

/// The modules of a module map's entries, in order; `None` on the first failure.
pub open spec fn modules_of(es: Seq<(Seq<char>, Seq<PropertyView>)>) -> Option<Seq<ModuleView>>
    decreases es.len(),
{
    if es.len() == 0 {
        Some(Seq::empty())
    } else {
        match modules_of(es.drop_last()) {
            None => None,
            Some(ms) => match module_of(es.last()) {
                None => None,
                Some(None) => Some(ms),
                Some(Some(m)) => Some(ms.push(m)),
            },
        }
    }
}

/// The entries of `ConcreteModel.ModuleMap`, when it is a map from strings to structs.
pub open spec fn module_entries_of(ps: Seq<PropertyView>) -> Seq<(Seq<char>, Seq<PropertyView>)> {
    match fields_of(ps, "ConcreteModel"@) {
        Some(cf) => match find_property(cf, "ModuleMap"@) {
            Some(p) => match struct_map_entries(p) {
                Some(es) => es,
                None => Seq::empty(),
            },
            None => Seq::empty(),
        },
        None => Seq::empty(),
    }
}

/// What a map object's properties hold: its id, then the model, connector
/// and build process under `Model`, then the modules under `ConcreteModel`.
/// `None` when the id is not a string or a name, or some present data does
/// not read.
pub open spec fn map_object_of(ps: Seq<PropertyView>) -> Option<MapObjectView> {
    let mf = fields_of(ps, "Model"@);
    let model = match mf {
        Some(fs) => read_part(raw_data_of(fs), false, |b: Seq<u8>| parse_map_model(b)),
        None => Some(None),
    };
    let connector = match mf {
        Some(fs) => read_part(nested_raw_data(fs, "Connector"@), true, |b: Seq<u8>| parse_connector(b)),
        None => Some(None),
    };
    let build = match mf {
        Some(fs) => read_part(nested_raw_data(fs, "BuildProcess"@), true, |b: Seq<u8>| parse_build_process(b)),
        None => Some(None),
    };
    match (object_id_of(ps), model, connector, build, modules_of(module_entries_of(ps))) {
        (Some(id), Some(m), Some(c), Some(b), Some(mods)) => Some(
            MapObjectView { map_object_id: id, model: m, connector: c, build_process: b, modules: mods },
        ),
        _ => None,
    }
}

/// Why reading a module map entry's module fails: its payload's error.
pub open spec fn module_error(e: (Seq<char>, Seq<PropertyView>)) -> Error {
    match raw_data_of(e.1) {
        Some(b) => module_data_error(e.0, b),
        None => Error::UnexpectedEof,
    }
}

/// Why reading the modules of a module map's entries fails: the error of the
/// first module that does not read.
pub open spec fn modules_error(es: Seq<(Seq<char>, Seq<PropertyView>)>) -> Error
    decreases es.len(),
{
    if es.len() == 0 {
        Error::UnexpectedEof
    } else {
        match modules_of(es.drop_last()) {
            None => modules_error(es.drop_last()),
            Some(_) => module_error(es.last()),
        }
    }
}

/// Why reading a map object's data fails: an id that is not a string or a
/// name; else the first part that does not read, in the order of
/// [`map_object_of`] (a model or connector is short of bytes, a build
/// process has the error of its bytes, a module that of its payload).
pub open spec fn map_object_error(ps: Seq<PropertyView>) -> Error {
    if object_id_of(ps) is None {
        Error::MalformedMapObject
    } else {
        match fields_of(ps, "Model"@) {
            Some(fs) => if read_part(raw_data_of(fs), false, |b: Seq<u8>| parse_map_model(b)) is None {
                Error::UnexpectedEof
            } else if read_part(nested_raw_data(fs, "Connector"@), true, |b: Seq<u8>| parse_connector(b)) is None {
                Error::UnexpectedEof
            } else if read_part(nested_raw_data(fs, "BuildProcess"@), true, |b: Seq<u8>| parse_build_process(b))
                is None {
                build_process_error(nested_raw_data(fs, "BuildProcess"@)->0)
            } else {
                modules_error(module_entries_of(ps))
            },
            None => modules_error(module_entries_of(ps)),
        }
    }
}

/// The id of a map object, from its `MapObjectId` property, which must be
/// a string or a name.
pub fn determine_object_id(properties: &Properties) -> (res: Result<String, Error>)
    requires
        find_property(properties@, "MapObjectId"@) is Some,
    ensures
        match object_id_of(properties@) {
            Some(id) => res matches Ok(s) && s@ == id,
            None => res == Err::<String, Error>(Error::MalformedMapObject),
        },
{
    let p = match properties.get("MapObjectId") {
        Some(p) => p,
        None => return Err(Error::MalformedMapObject),
    };
    match p.string_value() {
        Some(s) => Ok(s),
        None => Err(Error::MalformedMapObject),
    }
}

/// The models of optional fields.
pub open spec fn opt_props_view(o: Option<Properties>) -> Option<Seq<PropertyView>> {
    match o {
        Some(x) => Some(x@),
        None => None,
    }
}

/// The models of optional bytes.
pub open spec fn opt_bytes_view(o: Option<Vec<u8>>) -> Option<Seq<u8>> {
    match o {
        Some(x) => Some(x@),
        None => None,
    }
}

fn get_fields(ps: &Properties, name: &str) -> (r: Option<Properties>)
    ensures
        opt_props_view(r) == fields_of(ps@, name@),
{
    match ps.get(name) {
        Some(p) => p.struct_fields(),
        None => None,
    }
}

fn get_raw_data(fs: &Properties) -> (r: Option<Vec<u8>>)
    ensures
        opt_bytes_view(r) == raw_data_of(fs@),
{
    match fs.get("RawData") {
        Some(p) => p.byte_array(),
        None => None,
    }
}

fn get_nested_raw_data(fs: &Properties, name: &str) -> (r: Option<Vec<u8>>)
    ensures
        opt_bytes_view(r) == nested_raw_data(fs@, name@),
{
    match get_fields(fs, name) {
        Some(gs) => get_raw_data(&gs),
        None => None,
    }
}

fn get_custom_version_data(fs: &Properties) -> (r: Vec<u8>)
    ensures
        r@ == custom_version_data_of(fs@),
{
    match fs.get("CustomVersionData") {
        Some(p) => match p.byte_array() {
            Some(b) => b,
            None => Vec::new(),
        },
        None => Vec::new(),
    }
}

fn read_model(fs: &Properties) -> (res: Result<Option<PalMapModel>, Error>)
    ensures
        match read_part(raw_data_of(fs@), false, |b: Seq<u8>| parse_map_model(b)) {
            Some(o) => res matches Ok(x) && opt_view(x) == o,
            None => res == Err::<Option<PalMapModel>, Error>(Error::UnexpectedEof),
        },
{
    match get_raw_data(fs) {
        None => Ok(None),
        Some(b) => {
            let mut r = Reader::new(b.as_slice());
            assert(r.rest() =~= b@);
            Ok(Some(PalMapModel::read(&mut r)?))
        },
    }
}

fn read_connector(fs: &Properties) -> (res: Result<Option<PalConnector>, Error>)
    ensures
        match read_part(nested_raw_data(fs@, "Connector"@), true, |b: Seq<u8>| parse_connector(b)) {
            Some(o) => res matches Ok(x) && opt_view(x) == o,
            None => res == Err::<Option<PalConnector>, Error>(Error::UnexpectedEof),
        },
{
    match get_nested_raw_data(fs, "Connector") {
        None => Ok(None),
        Some(b) => if b.len() == 0 {
            Ok(None)
        } else {
            let mut r = Reader::new(b.as_slice());
            assert(r.rest() =~= b@);
            Ok(Some(PalConnector::read(&mut r)?))
        },
    }
}

fn read_build_process(fs: &Properties) -> (res: Result<Option<PalBuildProcess>, Error>)
    ensures
        match read_part(nested_raw_data(fs@, "BuildProcess"@), true, |b: Seq<u8>| parse_build_process(b)) {
            Some(o) => res matches Ok(x) && opt_view(x) == o,
            None => res == Err::<Option<PalBuildProcess>, Error>(
                build_process_error(nested_raw_data(fs@, "BuildProcess"@)->0),
            ),
        },
{
    match get_nested_raw_data(fs, "BuildProcess") {
        None => Ok(None),
        Some(b) => if b.len() == 0 {
            Ok(None)
        } else {
            let mut r = Reader::new(b.as_slice());
            assert(r.rest() =~= b@);
            Ok(Some(PalBuildProcess::read(&mut r)?))
        },
    }
}

fn read_module(module_type: &String, fs: &Properties) -> (res: Result<Option<PalMapConcreteModelModule>, Error>)
    ensures
        match module_of((module_type@, fs@)) {
            Some(None) => res matches Ok(None),
            Some(Some(m)) => res matches Ok(Some(x)) && module_view(x) == m,
            None => res == Err::<Option<PalMapConcreteModelModule>, Error>(module_error((module_type@, fs@))),
        },
{
    let cvd = get_custom_version_data(fs);
    match get_raw_data(fs) {
        None => Ok(None),
        Some(b) => if b.len() == 0 {
            Ok(None)
        } else {
            let m = PalMapConcreteModelModule::read_with_module_type(b.as_slice(), module_type.as_str(), cvd)?;
            Ok(Some(m))
        },
    }
}

fn get_module_entries(ps: &Properties) -> (r: Vec<(String, Properties)>)
    ensures
        entries_view(r@) == module_entries_of(ps@),
{
    let empty: Vec<(String, Properties)> = Vec::new();
    assert(entries_view(empty@) =~= Seq::<(Seq<char>, Seq<PropertyView>)>::empty());
    match get_fields(ps, "ConcreteModel") {
        Some(cf) => match cf.get("ModuleMap") {
            Some(p) => match p.struct_map_entries() {
                Some(es) => es,
                None => empty,
            },
            None => empty,
        },
        None => empty,
    }
}

fn read_modules(es: &Vec<(String, Properties)>) -> (res: Result<Vec<PalMapConcreteModelModule>, Error>)
    ensures
        match modules_of(entries_view(es@)) {
            Some(ms) => res matches Ok(v) && v@.map_values(|m: PalMapConcreteModelModule| module_view(m)) == ms,
            None => res == Err::<Vec<PalMapConcreteModelModule>, Error>(modules_error(entries_view(es@))),
        },
{
    let ghost ev = entries_view(es@);
    let mut out: Vec<PalMapConcreteModelModule> = Vec::new();
    let mut i: usize = 0;
    assert(ev.take(0) =~= Seq::<(Seq<char>, Seq<PropertyView>)>::empty());
    assert(out@.map_values(|m: PalMapConcreteModelModule| module_view(m)) =~= Seq::<ModuleView>::empty());
    while i < es.len()
        invariant
            i <= es@.len(),
            ev == entries_view(es@),
            modules_of(ev.take(i as int)) == Some(out@.map_values(|m: PalMapConcreteModelModule| module_view(m))),
        decreases es@.len() - i,
    {
        let e = &es[i];
        proof {
            assert(ev.take(i + 1).drop_last() =~= ev.take(i as int));
            assert(ev.take(i + 1).last() == (e.0@, e.1@));
        }
        match read_module(&e.0, &e.1) {
            Ok(Some(m)) => {
                let ghost before = out@;
                out.push(m);
                assert(out@.map_values(|m: PalMapConcreteModelModule| module_view(m)) =~= before.map_values(
                    |m: PalMapConcreteModelModule| module_view(m),
                ).push(module_view(m)));
            },
            Ok(None) => {},
            Err(err) => {
                proof {
                    lemma_modules_fail(ev, i as int);
                }
                return Err(err);
            },
        }
        i = i + 1;
    }
    assert(ev.take(i as int) =~= ev);
    Ok(out)
}

/// Once reading a module fails, reading all of them fails, for the same reason.
proof fn lemma_modules_fail(es: Seq<(Seq<char>, Seq<PropertyView>)>, i: int)
    requires
        0 <= i < es.len(),
        modules_of(es.take(i + 1)) is None,
    ensures
        modules_of(es) is None,
        modules_error(es) == modules_error(es.take(i + 1)),
    decreases es.len() - i,
{
    if i + 1 == es.len() {
        assert(es.take(i + 1) =~= es);
    } else {
        let p = es.drop_last();
        assert(p.take(i + 1) =~= es.take(i + 1));
        lemma_modules_fail(p, i);
    }
}

/// Reads the data embedded in a map object's properties, with the help of
/// its id and of each module's type; see [`map_object_of`]. The concrete
/// model's `ConcreteModel.RawData` is skipped: its layout is not known to
/// this library, so it is neither read nor checked.
pub fn parse_map_object_with_context(properties: &Properties) -> (res: Result<MapObjectData, Error>)
    requires
        find_property(properties@, "MapObjectId"@) is Some,
    ensures
        match map_object_of(properties@) {
            Some(v) => res matches Ok(x) && x@ == v,
            None => res == Err::<MapObjectData, Error>(map_object_error(properties@)),
        },
{
    let map_object_id = determine_object_id(properties)?;
    let (model, connector, build_process) = match get_fields(properties, "Model") {
        Some(fs) => {
            let model = read_model(&fs)?;
            let connector = read_connector(&fs)?;
            let build_process = read_build_process(&fs)?;
            (model, connector, build_process)
        },
        None => (None, None, None),
    };
    let entries = get_module_entries(properties);
    let modules = read_modules(&entries)?;
    Ok(MapObjectData { map_object_id, model, connector, build_process, modules })
}

/// An element of the map object data array: a struct of properties, or a
/// value of another kind.
#[derive(Debug, PartialEq, Eq)]
pub enum MapObjectElement {
    Fields(Properties),
    Other,
}

impl View for MapObjectElement {
    type V = Option<Seq<PropertyView>>;

    open spec fn view(&self) -> Option<Seq<PropertyView>> {
        match self {
            MapObjectElement::Fields(ps) => Some(ps@),
            MapObjectElement::Other => None,
        }
    }
}

/// The models of the elements of a map object data array.
pub open spec fn element_views(es: Seq<MapObjectElement>) -> Seq<Option<Seq<PropertyView>>> {
    es.map_values(|e: MapObjectElement| e@)
}

/// The models of map objects' data.
pub open spec fn map_object_views(ms: Seq<MapObjectData>) -> Seq<MapObjectView> {
    ms.map_values(|m: MapObjectData| m@)
}

/// The data of the elements of the map object data array, read in order; the
/// first element that is not a struct of properties, or whose data does not
/// read, gives the error.
pub open spec fn map_objects_of(es: Seq<Option<Seq<PropertyView>>>) -> Result<Seq<MapObjectView>, Error>
    decreases es.len(),
{
    if es.len() == 0 {
        Ok(Seq::empty())
    } else {
        match map_objects_of(es.drop_last()) {
            Err(e) => Err(e),
            Ok(ms) => match es.last() {
                None => Err(Error::MapObjectNotAStruct(es.len() as u64)),
                Some(ps) => match map_object_of(ps) {
                    Some(m) => Ok(ms.push(m)),
                    None => Err(map_object_error(ps)),
                },
            },
        }
    }
}

/// Every struct element that is reached before an element of another kind
/// has a `MapObjectId` property.
pub open spec fn ids_present(es: Seq<Option<Seq<PropertyView>>>) -> bool {
    forall|i: int|
        #![trigger es[i]]
        0 <= i < es.len() && (forall|j: int| 0 <= j < i ==> (#[trigger] es[j]) is Some) && es[i] is Some
            ==> find_property(es[i]->0, "MapObjectId"@) is Some
}

/// Once reading the elements fails, reading more of them fails the same way.
proof fn lemma_map_objects_fail(es: Seq<Option<Seq<PropertyView>>>, i: int)
    requires
        0 <= i < es.len(),
        map_objects_of(es.take(i + 1)) is Err,
    ensures
        map_objects_of(es) == map_objects_of(es.take(i + 1)),
    decreases es.len() - i,
{
    if i + 1 == es.len() {
        assert(es.take(i + 1) =~= es);
    } else {
        let p = es.drop_last();
        assert(p.take(i + 1) =~= es.take(i + 1));
        lemma_map_objects_fail(p, i);
    }
}

/// Reads the data of every element of the map object data array, in order:
/// each element must be a struct of properties, whose data is read as
/// [`parse_map_object_with_context`] does; see [`map_objects_of`].
pub fn parse_map_objects(elements: &Vec<MapObjectElement>) -> (res: Result<Vec<MapObjectData>, Error>)
    requires
        ids_present(element_views(elements@)),
    ensures
        match map_objects_of(element_views(elements@)) {
            Ok(ms) => res matches Ok(v) && map_object_views(v@) == ms,
            Err(e) => res == Err::<Vec<MapObjectData>, Error>(e),
        },
{
    let ghost ev = element_views(elements@);
    let mut out: Vec<MapObjectData> = Vec::new();
    let mut i: usize = 0;
    assert(ev.take(0) =~= Seq::<Option<Seq<PropertyView>>>::empty());
    assert(map_object_views(out@) =~= Seq::<MapObjectView>::empty());
    while i < elements.len()
        invariant
            i <= elements@.len(),
            ev == element_views(elements@),
            ids_present(ev),
            forall|j: int| 0 <= j < i ==> (#[trigger] ev[j]) is Some,
            map_objects_of(ev.take(i as int)) == Ok::<Seq<MapObjectView>, Error>(map_object_views(out@)),
        decreases elements@.len() - i,
    {
        proof {
            assert(ev.take(i + 1).drop_last() =~= ev.take(i as int));
            assert(ev.take(i + 1).last() == ev[i as int]);
            assert(ev[i as int] == elements@[i as int]@);
        }
        match &elements[i] {
            MapObjectElement::Fields(ps) => {
                proof {
                    assert(ev[i as int] == Some(ps@));
                }
                match parse_map_object_with_context(ps) {
                    Ok(m) => {
                        let ghost before = out@;
                        out.push(m);
                        assert(map_object_views(out@) =~= map_object_views(before).push(m@));
                    },
                    Err(e) => {
                        proof {
                            lemma_map_objects_fail(ev, i as int);
                        }
                        return Err(e);
                    },
                }
            },
            MapObjectElement::Other => {
                proof {
                    lemma_map_objects_fail(ev, i as int);
                }
                return Err(Error::MapObjectNotAStruct(i as u64 + 1));
            },
        }
        i = i + 1;
    }
    assert(ev.take(i as int) =~= ev);
    Ok(out)
}

/// What a map object's data holds, part by part: the `Model` struct's own
/// `RawData` is read as a map model; its `Connector` and `BuildProcess`
/// structs' `RawData`, when not empty, as a connector and a build process;
/// absent data gives no part. A part whose data does not read makes the
/// whole read fail.
pub proof fn lemma_map_object_parts(ps: Seq<PropertyView>)
    ensures
        ({
            match fields_of(ps, "Model"@) {
                Some(fs) => {
                    &&& (raw_data_of(fs) matches Some(b) && parse_map_model(b) is None) ==> map_object_of(ps) is None
                    &&& (nested_raw_data(fs, "Connector"@) matches Some(b) && b.len() > 0 && parse_connector(b) is None)
                        ==> map_object_of(ps) is None
                    &&& (nested_raw_data(fs, "BuildProcess"@) matches Some(b) && b.len() > 0
                        && parse_build_process(b) is None) ==> map_object_of(ps) is None
                    &&& map_object_of(ps) matches Some(m) ==> {
                        &&& m.model == (match raw_data_of(fs) {
                            Some(b) => parse_map_model(b),
                            None => None,
                        })
                        &&& m.connector == (match nested_raw_data(fs, "Connector"@) {
                            Some(b) => if b.len() > 0 { parse_connector(b) } else { None },
                            None => None,
                        })
                        &&& m.build_process == (match nested_raw_data(fs, "BuildProcess"@) {
                            Some(b) => if b.len() > 0 { parse_build_process(b) } else { None },
                            None => None,
                        })
                    }
                },
                None => map_object_of(ps) matches Some(m) ==> m.model is None && m.connector is None
                    && m.build_process is None,
            }
        }),
        map_object_of(ps) matches Some(m) ==> object_id_of(ps) == Some(m.map_object_id) && modules_of(
            module_entries_of(ps),
        ) == Some(m.modules),
        object_id_of(ps) is None ==> map_object_of(ps) is None,
{
}

} // verus!
