//! Choosing the machine's sensors and judging what they report.
//!
//! The caller lists the hardware-monitor devices and reads their files; which
//! file counts and what its text means is decided here.

use vstd::prelude::*;

use crate::number::{law_written_numbers_are_read, number_value, parse_i64};
use crate::text::{
    all_digits, ascending_texts, ends_with, insert_text, lemma_ascending_is_unique,
    lemma_text_order, lower_of, lowers_to, occurs_at, only_digits, prefixed, same, signed_decimal,
    signed_decimal_text, stands_before, starts_with, text_before, trim, trim_of,
};

verus! {

/// The platform's own file of the sustained limit.
pub const PLATFORM_PL1: &'static str = "/sys/devices/platform/asus-nb-wmi/ppt_pl1_spl";

/// One reading of all sensors.
#[derive(Clone, Copy, Debug, PartialEq, Eq)]
pub struct SensorSnapshot {
    pub apu_temperature_c: i32,
    pub rpm: [u32; 2],
    pub pl1_w: Option<u32>,
}

/// Why there is no reading.
#[derive(Clone, Debug, PartialEq, Eq)]
pub enum SensorError {
    Enumerate(String),
    TemperatureMissing,
    FansMissing,
    Read { path: String, source: String },
    Invalid(String),
    TemperatureRange(i32),
}

/// The model of a [`SensorError`].
pub enum SensorErrorView {
    Enumerate(Seq<char>),
    TemperatureMissing,
    FansMissing,
    Read { path: Seq<char>, source: Seq<char> },
    Invalid(Seq<char>),
    TemperatureRange(i32),
}

impl View for SensorError {
    type V = SensorErrorView;

    open spec fn view(&self) -> SensorErrorView {
        match self {
            SensorError::Enumerate(text) => SensorErrorView::Enumerate(text@),
            SensorError::TemperatureMissing => SensorErrorView::TemperatureMissing,
            SensorError::FansMissing => SensorErrorView::FansMissing,
            SensorError::Read { path, source } => SensorErrorView::Read {
                path: path@,
                source: source@,
            },
            SensorError::Invalid(path) => SensorErrorView::Invalid(path@),
            SensorError::TemperatureRange(value) => SensorErrorView::TemperatureRange(*value),
        }
    }
}

impl SensorErrorView {
    /// The wording of [`SensorError::message`].
    pub open spec fn message_text(self) -> Seq<char> {
        match self {
            SensorErrorView::Enumerate(text) => "failed to enumerate hwmon: "@ + text,
            SensorErrorView::TemperatureMissing => "APU temperature sensor was not found"@,
            SensorErrorView::FansMissing => "two fan RPM sensors were not found"@,
            SensorErrorView::Read { path, source } => "failed to read "@ + path + ": "@ + source,
            SensorErrorView::Invalid(path) => "invalid numeric sensor value in "@ + path,
            SensorErrorView::TemperatureRange(value) => "APU temperature "@ + signed_decimal(
                value as int,
            ) + "C is outside the credible range"@,
        }
    }
}

impl SensorError {
    /// The message shown to the user.
    pub fn message(&self) -> (result: String)
        ensures
            result@ == self@.message_text(),
    {
        match self {
            SensorError::Enumerate(text) => prefixed("failed to enumerate hwmon: ", text.as_str()),
            SensorError::TemperatureMissing => String::from_str(
                "APU temperature sensor was not found",
            ),
            SensorError::FansMissing => String::from_str("two fan RPM sensors were not found"),
            SensorError::Read { path, source } => {
                let mut text: String = prefixed("failed to read ", path.as_str());
                text.append(": ");
                text.append(source.as_str());
                text
            },
            SensorError::Invalid(path) => prefixed(
                "invalid numeric sensor value in ",
                path.as_str(),
            ),
            SensorError::TemperatureRange(value) => {
                let mut text: String = prefixed(
                    "APU temperature ",
                    signed_decimal_text(*value as i64).as_str(),
                );
                text.append("C is outside the credible range");
                text
            },
        }
    }
}

/// A result with a sensor error, as its model.
pub open spec fn sensor_result<T>(result: Result<T, SensorError>) -> Result<T, SensorErrorView> {
    match result {
        Ok(value) => Ok(value),
        Err(error) => Err(error@),
    }
}

/// The text of a file, or the text of the error that reading it gave.
pub open spec fn file_view(file: Result<String, String>) -> Result<Seq<char>, Seq<char>> {
    crate::json::text_result(file)
}

// ---------------------------------------------------------------------------
// Files
// ---------------------------------------------------------------------------

/// Whether a file name is `prefix`, a number and `_input`.
pub open spec fn is_indexed_input(name: Seq<char>, prefix: Seq<char>) -> bool {
    &&& occurs_at(name, prefix, 0)
    &&& occurs_at(name, "_input"@, name.len() - "_input"@.len())
    &&& prefix.len() + "_input"@.len() <= name.len()
    &&& all_digits(name.subrange(prefix.len() as int, name.len() - "_input"@.len()))
}

/// Whether a file name is `prefix`, a number and `_input`.
pub fn indexed_input(name: &str, prefix: &str) -> (result: bool)
    ensures
        result == is_indexed_input(name@, prefix@),
{
    proof {
        reveal_strlit("_input");
    }
    if !starts_with(name, prefix) || !ends_with(name, "_input") {
        return false;
    }
    let length: usize = name.unicode_len();
    let start: usize = prefix.unicode_len();
    if length < 6 || start > length - 6 {
        return false;
    }
    only_digits(name.substring_char(start, length - 6))
}

/// Whether these are the numbered inputs among the names, in their order.
pub open spec fn are_inputs(
    inputs: Seq<Seq<char>>,
    names: Seq<Seq<char>>,
    prefix: Seq<char>,
) -> bool {
    &&& ascending_texts(inputs)
    &&& forall|name: Seq<char>| #[trigger]
        inputs.contains(name) == (names.contains(name) && is_indexed_input(name, prefix))
}

/// The numbered inputs among the names, in their order.
pub open spec fn inputs_of(names: Seq<Seq<char>>, prefix: Seq<char>) -> Seq<Seq<char>> {
    choose|inputs: Seq<Seq<char>>| are_inputs(inputs, names, prefix)
}

/// The numbered inputs among the names of a directory, in their order.
pub fn indexed_inputs(names: &Vec<String>, prefix: &str) -> (result: Vec<String>)
    ensures
        are_inputs(result.deep_view(), names.deep_view(), prefix@),
        result.deep_view() == inputs_of(names.deep_view(), prefix@),
{
    let ghost all = names.deep_view();
    let mut inputs: Vec<String> = Vec::new();
    let mut i: usize = 0;
    while i < names.len()
        invariant
            all == names.deep_view(),
            i <= names@.len(),
            ascending_texts(inputs.deep_view()),
            forall|name: Seq<char>| #[trigger]
                inputs.deep_view().contains(name) == (all.take(i as int).contains(name)
                    && is_indexed_input(name, prefix@)),
        decreases names@.len() - i,
    {
        assert(all[i as int] == names@[i as int]@);
        let ghost before = inputs.deep_view();
        if indexed_input(names[i].as_str(), prefix) {
            insert_text(&mut inputs, names[i].as_str());
        }
        proof {
            let sofar = all.take(i as int);
            assert(all.take(i + 1) =~= sofar.push(all[i as int]));
            assert forall|name: Seq<char>| #[trigger] inputs.deep_view().contains(name) == (
            all.take(i + 1).contains(name) && is_indexed_input(name, prefix@)) by {
                assert(before.contains(name) == (sofar.contains(name) && is_indexed_input(
                    name,
                    prefix@,
                )));
                if sofar.contains(name) {
                    assert(sofar.push(all[i as int])[sofar.index_of(name)] == name);
                }
                if name == all[i as int] {
                    assert(sofar.push(all[i as int])[i as int] == name);
                }
                if all.take(i + 1).contains(name) && name != all[i as int] {
                    let at = all.take(i + 1).index_of(name);
                    assert(sofar[at] == name);
                }
            }
        }
        i = i + 1;
    }
    assert(all.take(i as int) =~= all);
    proof {
        assert(are_inputs(inputs.deep_view(), all, prefix@));
        let listed = inputs_of(all, prefix@);
        assert(are_inputs(listed, all, prefix@));
        lemma_ascending_is_unique(inputs.deep_view(), listed);
    }
    inputs
}

/// The whole number that a sensor file holds.
pub open spec fn file_number(path: Seq<char>, file: Result<Seq<char>, Seq<char>>) -> Result<
    int,
    SensorErrorView,
> {
    match file {
        Err(source) => Err(SensorErrorView::Read { path, source }),
        Ok(text) => match number_value(trim_of(text), i64::MIN as int, i64::MAX as int) {
            Ok(value) => Ok(value),
            Err(_) => Err(SensorErrorView::Invalid(path)),
        },
    }
}

/// Reads the whole number that a sensor file holds.
pub fn read_i64(path: &str, file: Result<String, String>) -> (result: Result<i64, SensorError>)
    ensures
        match file_number(path@, file_view(file)) {
            Ok(value) => result == Ok::<i64, SensorError>(value as i64) && i64::MIN <= value
                <= i64::MAX,
            Err(error) => result matches Err(found) && found@ == error,
        },
{
    match file {
        Err(source) => Err(SensorError::Read { path: String::from_str(path), source }),
        Ok(text) => match parse_i64(trim(text.as_str())) {
            Ok(value) => Ok(value),
            Err(_) => Err(SensorError::Invalid(String::from_str(path))),
        },
    }
}

/// Division that rounds towards zero.
pub open spec fn toward_zero(value: int, divisor: int) -> int {
    if value >= 0 {
        value / divisor
    } else {
        -((-value) / divisor)
    }
}

/// The temperature that a millidegree file reports.
pub open spec fn temperature_of(path: Seq<char>, file: Result<Seq<char>, Seq<char>>) -> Result<
    i32,
    SensorErrorView,
> {
    match file_number(path, file) {
        Err(error) => Err(error),
        Ok(value) => {
            let degrees = toward_zero(value, 1000);
            if !(i32::MIN <= degrees <= i32::MAX) {
                Err(SensorErrorView::Invalid(path))
            } else if !(-20 <= degrees <= 150) {
                Err(SensorErrorView::TemperatureRange(degrees as i32))
            } else {
                Ok(degrees as i32)
            }
        },
    }
}

/// Judges the text of the temperature file: only a credible temperature passes.
pub fn read_temperature(path: &str, file: Result<String, String>) -> (result: Result<
    i32,
    SensorError,
>)
    ensures
        sensor_result(result) == temperature_of(path@, file_view(file)),
{
    let value: i64 = match read_i64(path, file) {
        Ok(value) => value,
        Err(error) => {
            return Err(error);
        },
    };
    let degrees: i64 = if value >= 0 {
        value / 1000
    } else {
        (-((-(value as i128)) / 1000)) as i64
    };
    if degrees < -0x8000_0000 || degrees > 0x7fff_ffff {
        return Err(SensorError::Invalid(String::from_str(path)));
    }
    let degrees: i32 = degrees as i32;
    if degrees < -20 || degrees > 150 {
        return Err(SensorError::TemperatureRange(degrees));
    }
    Ok(degrees)
}

/// The speed that a fan file reports.
pub open spec fn rpm_of(path: Seq<char>, file: Result<Seq<char>, Seq<char>>) -> Result<
    u32,
    SensorErrorView,
> {
    match file_number(path, file) {
        Err(error) => Err(error),
        Ok(value) => if 0 <= value <= u32::MAX {
            Ok(value as u32)
        } else {
            Err(SensorErrorView::Invalid(path))
        },
    }
}

/// Judges the text of a fan file.
pub fn read_rpm(path: &str, file: Result<String, String>) -> (result: Result<u32, SensorError>)
    ensures
        sensor_result(result) == rpm_of(path@, file_view(file)),
{
    match read_i64(path, file) {
        Ok(value) => if 0 <= value && value <= 0xffff_ffff {
            Ok(value as u32)
        } else {
            Err(SensorError::Invalid(String::from_str(path)))
        },
        Err(error) => Err(error),
    }
}

/// The limit that the platform's own file reports, if there is such a file.
pub open spec fn platform_limit(
    path: Seq<char>,
    file: Option<Result<Seq<char>, Seq<char>>>,
) -> Result<Option<u32>, SensorErrorView> {
    match file {
        None => Ok(None),
        Some(file) => match rpm_of(path, file) {
            Ok(watts) => Ok(Some(watts)),
            Err(error) => Err(error),
        },
    }
}

/// Judges the platform's sustained limit, which not every firmware offers.
pub fn read_platform_pl1(path: &str, file: Option<Result<String, String>>) -> (result: Result<
    Option<u32>,
    SensorError,
>)
    ensures
        sensor_result(result) == platform_limit(path@, optional_file(file)),
{
    match file {
        None => Ok(None),
        Some(file) => match read_rpm(path, file) {
            Ok(watts) => Ok(Some(watts)),
            Err(error) => Err(error),
        },
    }
}

// ---------------------------------------------------------------------------
// Directories
// ---------------------------------------------------------------------------

/// A file of a device: its name, and its text or the text of the error that
/// reading it gave.
pub struct HwmonFile {
    pub name: String,
    pub content: Result<String, String>,
}

/// The model of a [`HwmonFile`].
pub struct FileView {
    pub name: Seq<char>,
    pub content: Result<Seq<char>, Seq<char>>,
}

impl DeepView for HwmonFile {
    type V = FileView;

    open spec fn deep_view(&self) -> FileView {
        FileView { name: self.name@, content: file_view(self.content) }
    }
}

/// The directory of a hardware-monitor device: where it is, the text of its name
/// file where that can be read, and its files or the text of the error that
/// listing them gave.
pub struct HwmonDirectory {
    pub path: String,
    pub name: Option<String>,
    pub files: Result<Vec<HwmonFile>, String>,
}

/// The model of a [`HwmonDirectory`].
pub struct DirectoryView {
    pub path: Seq<char>,
    pub name: Option<Seq<char>>,
    pub files: Result<Seq<FileView>, Seq<char>>,
}

impl DeepView for HwmonDirectory {
    type V = DirectoryView;

    open spec fn deep_view(&self) -> DirectoryView {
        DirectoryView {
            path: self.path@,
            name: self.name.deep_view(),
            files: match self.files {
                Ok(files) => Ok(files.deep_view()),
                Err(text) => Err(text@),
            },
        }
    }
}

/// What listing the devices gave, as its model.
pub open spec fn root_view(root: Result<Vec<HwmonDirectory>, String>) -> Result<
    Seq<DirectoryView>,
    Seq<char>,
> {
    match root {
        Ok(directories) => Ok(directories.deep_view()),
        Err(text) => Err(text@),
    }
}

/// A directory put behind those that do not come after it.
pub open spec fn with_directory(
    directories: Seq<DirectoryView>,
    directory: DirectoryView,
) -> Seq<DirectoryView>
    decreases directories.len(),
{
    if directories.len() > 0 && text_before(directory.path, directories.last().path) {
        with_directory(directories.drop_last(), directory).push(directories.last())
    } else {
        directories.push(directory)
    }
}

/// The directories in the order of their paths.
pub open spec fn in_order(directories: Seq<DirectoryView>) -> Seq<DirectoryView>
    decreases directories.len(),
{
    if directories.len() == 0 {
        directories
    } else {
        with_directory(in_order(directories.drop_last()), directories.last())
    }
}

proof fn lemma_place(directories: Seq<DirectoryView>, directory: DirectoryView, at: int)
    requires
        0 <= at <= directories.len(),
        forall|k: int|
            at <= k < directories.len() ==> text_before(
                directory.path,
                (#[trigger] directories[k]).path,
            ),
        at > 0 ==> !text_before(directory.path, directories[at - 1].path),
    ensures
        with_directory(directories, directory) == directories.insert(at, directory),
    decreases directories.len(),
{
    if at < directories.len() {
        let shorter = directories.drop_last();
        assert forall|k: int| at <= k < shorter.len() implies text_before(
            directory.path,
            (#[trigger] shorter[k]).path,
        ) by {
            assert(shorter[k] == directories[k]);
        }
        lemma_place(shorter, directory, at);
        assert(directories.insert(at, directory) =~= shorter.insert(at, directory).push(
            directories.last(),
        ));
    } else {
        assert(directories.insert(at, directory) =~= directories.push(directory));
    }
}

fn put_directory(directories: &mut Vec<HwmonDirectory>, directory: HwmonDirectory)
    ensures
        final(directories).deep_view() == with_directory(
            old(directories).deep_view(),
            directory.deep_view(),
        ),
{
    let ghost before = directories.deep_view();
    let ghost added = directory.deep_view();
    let mut at: usize = directories.len();
    while at > 0 && stands_before(directory.path.as_str(), directories[at - 1].path.as_str())
        invariant
            before == directories.deep_view(),
            added == directory.deep_view(),
            at <= directories@.len(),
            forall|k: int|
                at <= k < before.len() ==> text_before(added.path, (#[trigger] before[k]).path),
        decreases at,
    {
        assert(before[at - 1] == directories@[at - 1].deep_view());
        at = at - 1;
    }
    proof {
        if at > 0 {
            assert(before[at - 1] == directories@[at - 1].deep_view());
        }
        lemma_place(before, added, at as int);
    }
    let ghost old_items = directories@;
    directories.insert(at, directory);
    assert(directories@ == old_items.insert(at as int, directory));
    assert(directories.deep_view() =~= before.insert(at as int, added));
}

fn ordered(directories: Vec<HwmonDirectory>) -> (result: Vec<HwmonDirectory>)
    ensures
        result.deep_view() == in_order(directories.deep_view()),
{
    let ghost all = directories.deep_view();
    let mut rest: Vec<HwmonDirectory> = directories;
    let mut result: Vec<HwmonDirectory> = Vec::new();
    let mut seen: Ghost<int> = Ghost(0);
    assert(rest.deep_view() =~= all.skip(0));
    assert(all.take(0) =~= Seq::<DirectoryView>::empty());
    assert(result.deep_view() =~= Seq::<DirectoryView>::empty());
    while rest.len() > 0
        invariant
            0 <= seen@ <= all.len(),
            rest.deep_view() == all.skip(seen@),
            result.deep_view() == in_order(all.take(seen@)),
        decreases rest@.len(),
    {
        let ghost before = rest;
        let directory: HwmonDirectory = rest.remove(0);
        proof {
            lemma_removed(before, rest, all, seen@);
            assert(all.take(seen@ + 1).drop_last() =~= all.take(seen@));
            assert(all.take(seen@ + 1).last() == all[seen@]);
        }
        put_directory(&mut result, directory);
        proof {
            seen@ = seen@ + 1;
        }
    }
    assert(rest.deep_view().len() == rest@.len());
    assert(all.take(seen@) =~= all);
    result
}

proof fn lemma_removed(
    before: Vec<HwmonDirectory>,
    rest: Vec<HwmonDirectory>,
    all: Seq<DirectoryView>,
    seen: int,
)
    requires
        before@.len() > 0,
        0 <= seen <= all.len(),
        rest@ == before@.remove(0),
        before.deep_view() == all.skip(seen),
    ensures
        seen < all.len(),
        before@[0].deep_view() == all[seen],
        rest.deep_view() == all.skip(seen + 1),
{
    assert(before.deep_view().len() == before@.len());
    assert(before.deep_view()[0] == before@[0].deep_view());
    assert(all.skip(seen)[0] == all[seen]);
    assert forall|k: int| 0 <= k < rest@.len() implies rest.deep_view()[k] == all[seen + 1 + k] by {
        assert(rest@[k] == before@[k + 1]);
        assert(before.deep_view()[k + 1] == before@[k + 1].deep_view());
        assert(all.skip(seen)[k + 1] == all[seen + 1 + k]);
    }
    assert(rest.deep_view() =~= all.skip(seen + 1));
}

// ---------------------------------------------------------------------------
// Inputs
// ---------------------------------------------------------------------------

/// A sensor file: where it is and what reading it gave.
struct SensorInput {
    path: String,
    content: Result<String, String>,
}

/// The model of a sensor file.
pub struct InputView {
    pub path: Seq<char>,
    pub content: Result<Seq<char>, Seq<char>>,
}

impl DeepView for SensorInput {
    type V = InputView;

    closed spec fn deep_view(&self) -> InputView {
        InputView { path: self.path@, content: file_view(self.content) }
    }
}

/// A temperature file with the text of its label.
struct TempInput {
    input: SensorInput,
    label: String,
}

/// The model of a temperature file with its label.
pub struct TempView {
    pub input: InputView,
    pub label: Seq<char>,
}

impl DeepView for TempInput {
    type V = TempView;

    closed spec fn deep_view(&self) -> TempView {
        TempView { input: self.input.deep_view(), label: self.label@ }
    }
}

/// The first file of a name.
pub open spec fn file_named(files: Seq<FileView>, name: Seq<char>) -> Option<
    Result<Seq<char>, Seq<char>>,
>
    decreases files.len(),
{
    if files.len() == 0 {
        None
    } else if files[0].name == name {
        Some(files[0].content)
    } else {
        file_named(files.drop_first(), name)
    }
}

proof fn lemma_named(files: Seq<FileView>, at: int)
    requires
        0 <= at < files.len(),
    ensures
        file_named(files, files[at].name) is Some,
    decreases files.len(),
{
    if at > 0 {
        assert(files.drop_first()[at - 1] == files[at]);
        lemma_named(files.drop_first(), at - 1);
    }
}

/// An optional file, as its model.
pub open spec fn optional_file(file: Option<Result<String, String>>) -> Option<
    Result<Seq<char>, Seq<char>>,
> {
    match file {
        Some(file) => Some(file_view(file)),
        None => None,
    }
}

fn find_file(files: &Vec<HwmonFile>, name: &str) -> (result: Option<Result<String, String>>)
    ensures
        optional_file(result) == file_named(files.deep_view(), name@),
{
    let ghost all = files.deep_view();
    let mut i: usize = 0;
    assert(all.skip(0) =~= all);
    while i < files.len()
        invariant
            all == files.deep_view(),
            i <= files@.len(),
            file_named(all, name@) == file_named(all.skip(i as int), name@),
        decreases files@.len() - i,
    {
        assert(all.skip(i as int)[0] == files@[i as int].deep_view());
        assert(all.skip(i as int).drop_first() =~= all.skip(i + 1));
        if same(files[i].name.as_str(), name) {
            return match &files[i].content {
                Ok(text) => Some(Ok(text.clone())),
                Err(text) => Some(Err(text.clone())),
            };
        }
        i = i + 1;
    }
    None
}

/// The names of the files.
pub open spec fn names_of(files: Seq<FileView>) -> Seq<Seq<char>> {
    Seq::new(files.len(), |i: int| files[i].name)
}

fn file_names(files: &Vec<HwmonFile>) -> (result: Vec<String>)
    ensures
        result.deep_view() == names_of(files.deep_view()),
{
    let ghost all = files.deep_view();
    let mut names: Vec<String> = Vec::new();
    let mut i: usize = 0;
    assert(names.deep_view() =~= names_of(all).take(0));
    while i < files.len()
        invariant
            all == files.deep_view(),
            i <= files@.len(),
            names.deep_view() == names_of(all).take(i as int),
        decreases files@.len() - i,
    {
        assert(all[i as int] == files@[i as int].deep_view());
        let ghost before = names.deep_view();
        names.push(files[i].name.clone());
        assert(names.deep_view() =~= before.push(names_of(all)[i as int]));
        assert(names_of(all).take(i + 1) =~= names_of(all).take(i as int).push(
            names_of(all)[i as int],
        ));
        i = i + 1;
    }
    assert(names_of(all).take(i as int) =~= names_of(all));
    names
}

/// A file of the directory at `path`.
pub open spec fn input_of(path: Seq<char>, files: Seq<FileView>, name: Seq<char>) -> InputView {
    InputView { path: path + "/"@ + name, content: file_named(files, name)->0 }
}

/// The text of the label that goes with a temperature file, empty where it cannot
/// be read.
pub open spec fn label_of(files: Seq<FileView>, name: Seq<char>) -> Seq<char> {
    match file_named(files, name.take(name.len() - "_input"@.len()) + "_label"@) {
        Some(Ok(text)) => text,
        _ => Seq::empty(),
    }
}

/// The temperature files of a directory, in order.
pub open spec fn temps_of(path: Seq<char>, files: Seq<FileView>) -> Seq<TempView> {
    let names = inputs_of(names_of(files), "temp"@);
    Seq::new(
        names.len(),
        |i: int|
            TempView {
                input: input_of(path, files, names[i]),
                label: label_of(files, names[i]),
            },
    )
}

/// The fan files of a directory, in order.
pub open spec fn fans_of(path: Seq<char>, files: Seq<FileView>) -> Seq<InputView> {
    let names = inputs_of(names_of(files), "fan"@);
    Seq::new(names.len(), |i: int| input_of(path, files, names[i]))
}

fn input_at(path: &str, files: &Vec<HwmonFile>, name: &str) -> (result: SensorInput)
    requires
        names_of(files.deep_view()).contains(name@),
    ensures
        result.deep_view() == input_of(path@, files.deep_view(), name@),
{
    proof {
        let names = names_of(files.deep_view());
        lemma_named(files.deep_view(), names.index_of(name@));
    }
    let mut whole: String = prefixed(path, "/");
    whole.append(name);
    SensorInput { path: whole, content: find_file(files, name).unwrap() }
}

fn label_at(files: &Vec<HwmonFile>, name: &str) -> (result: String)
    requires
        is_indexed_input(name@, "temp"@),
    ensures
        result@ == label_of(files.deep_view(), name@),
{
    proof {
        reveal_strlit("_input");
    }
    let length: usize = name.unicode_len();
    let stem: &str = name.substring_char(0, length - 6);
    assert(stem@ =~= name@.take(name@.len() - 6));
    match find_file(files, prefixed(stem, "_label").as_str()) {
        Some(Ok(text)) => text,
        _ => String::new(),
    }
}

fn temp_inputs(path: &str, files: &Vec<HwmonFile>) -> (result: Vec<TempInput>)
    ensures
        result.deep_view() == temps_of(path@, files.deep_view()),
{
    let names: Vec<String> = indexed_inputs(&file_names(files), "temp");
    let ghost wanted = temps_of(path@, files.deep_view());
    let ghost all = names.deep_view();
    let mut temps: Vec<TempInput> = Vec::new();
    let mut i: usize = 0;
    assert(temps.deep_view() =~= wanted.take(0));
    while i < names.len()
        invariant
            i <= names@.len(),
            wanted == temps_of(path@, files.deep_view()),
            all == names.deep_view(),
            are_inputs(all, names_of(files.deep_view()), "temp"@),
            all == inputs_of(names_of(files.deep_view()), "temp"@),
            temps.deep_view() == wanted.take(i as int),
        decreases names@.len() - i,
    {
        assert(all[i as int] == names@[i as int]@);
        assert(all.contains(names@[i as int]@));
        let ghost before = temps.deep_view();
        let name: &str = names[i].as_str();
        temps.push(TempInput { input: input_at(path, files, name), label: label_at(files, name) });
        assert(temps.deep_view() =~= before.push(wanted[i as int]));
        assert(wanted.take(i + 1) =~= wanted.take(i as int).push(wanted[i as int]));
        i = i + 1;
    }
    assert(wanted.take(i as int) =~= wanted);
    temps
}

fn fan_inputs(path: &str, files: &Vec<HwmonFile>) -> (result: Vec<SensorInput>)
    ensures
        result.deep_view() == fans_of(path@, files.deep_view()),
{
    let names: Vec<String> = indexed_inputs(&file_names(files), "fan");
    let ghost wanted = fans_of(path@, files.deep_view());
    let ghost all = names.deep_view();
    let mut fans: Vec<SensorInput> = Vec::new();
    let mut i: usize = 0;
    assert(fans.deep_view() =~= wanted.take(0));
    while i < names.len()
        invariant
            i <= names@.len(),
            wanted == fans_of(path@, files.deep_view()),
            all == names.deep_view(),
            are_inputs(all, names_of(files.deep_view()), "fan"@),
            all == inputs_of(names_of(files.deep_view()), "fan"@),
            fans.deep_view() == wanted.take(i as int),
        decreases names@.len() - i,
    {
        assert(all[i as int] == names@[i as int]@);
        assert(all.contains(names@[i as int]@));
        let ghost before = fans.deep_view();
        fans.push(input_at(path, files, names[i].as_str()));
        assert(fans.deep_view() =~= before.push(wanted[i as int]));
        assert(wanted.take(i + 1) =~= wanted.take(i as int).push(wanted[i as int]));
        i = i + 1;
    }
    assert(wanted.take(i as int) =~= wanted);
    fans
}

/// Whether a reading may look at a file of this name.
pub open spec fn names_sensor_file(name: Seq<char>) -> bool {
    ||| occurs_at(name, "temp"@, 0)
    ||| occurs_at(name, "fan"@, 0)
    ||| name == "ppt_pl1_spl"@
    ||| name == "power1_cap"@
}

/// Whether a reading may look at a file of this name: no other file of a device
/// has to be read.
pub fn is_sensor_file(name: &str) -> (result: bool)
    ensures
        result == names_sensor_file(name@),
{
    starts_with(name, "temp") || starts_with(name, "fan") || same(name, "ppt_pl1_spl") || same(
        name,
        "power1_cap",
    )
}

// ---------------------------------------------------------------------------
// Selection
// ---------------------------------------------------------------------------

/// What the devices offer: the labelled and the first temperature file of the
/// processor, the fan files of the vendor's device and of all others, and the
/// sustained limit.
struct SensorSelection {
    temperature: Option<SensorInput>,
    fallback_temperature: Option<SensorInput>,
    preferred_fans: Vec<SensorInput>,
    fallback_fans: Vec<SensorInput>,
    pl1_w: Option<u32>,
}

/// The model of what the devices offer.
pub struct SelectionView {
    pub temperature: Option<InputView>,
    pub fallback_temperature: Option<InputView>,
    pub preferred_fans: Seq<InputView>,
    pub fallback_fans: Seq<InputView>,
    pub pl1_w: Option<u32>,
}

impl View for SensorSelection {
    type V = SelectionView;

    closed spec fn view(&self) -> SelectionView {
        SelectionView {
            temperature: self.temperature.deep_view(),
            fallback_temperature: self.fallback_temperature.deep_view(),
            preferred_fans: self.preferred_fans.deep_view(),
            fallback_fans: self.fallback_fans.deep_view(),
            pl1_w: self.pl1_w,
        }
    }
}

/// Whether a label is that of the control or die temperature, in any case.
pub open spec fn is_die_label(label: Seq<char>) -> bool {
    lower_of(trim_of(label)) == "tctl"@ || lower_of(trim_of(label)) == "tdie"@
}

fn die_label(label: &str) -> (result: bool)
    ensures
        result == is_die_label(label@),
{
    let trimmed: &str = trim(label);
    lowers_to(trimmed, "tctl") || lowers_to(trimmed, "tdie")
}

/// The last of the first `count` inputs with a die label, else `sofar`.
pub open spec fn last_die_input(
    temps: Seq<TempView>,
    count: int,
    sofar: Option<InputView>,
) -> Option<InputView>
    decreases count,
{
    if count <= 0 {
        sofar
    } else if is_die_label(temps[count - 1].label) {
        Some(temps[count - 1].input)
    } else {
        last_die_input(temps, count - 1, sofar)
    }
}

/// What a limit file contributes: nothing, or the limit it sets.
pub open spec fn limit_of(
    path: Seq<char>,
    file: Option<Result<Seq<char>, Seq<char>>>,
    divisor: int,
) -> Result<Option<Option<u32>>, SensorErrorView> {
    match file {
        None => Ok(None),
        Some(file) => match file_number(path, file) {
            Err(error) => Err(error),
            Ok(raw) => if raw < 0 {
                Ok(None)
            } else if raw / divisor <= u32::MAX {
                Ok(Some(Some((raw / divisor) as u32)))
            } else {
                Ok(Some(None))
            },
        },
    }
}

/// The limit after a directory: the file in watts counts before the one in
/// microwatts.
pub open spec fn limit_after(
    path: Seq<char>,
    files: Seq<FileView>,
    sofar: Option<u32>,
) -> Result<Option<u32>, SensorErrorView> {
    match limit_of(path + "/ppt_pl1_spl"@, file_named(files, "ppt_pl1_spl"@), 1) {
        Err(error) => Err(error),
        Ok(Some(limit)) => Ok(limit),
        Ok(None) => match limit_of(
            path + "/power1_cap"@,
            file_named(files, "power1_cap"@),
            1_000_000,
        ) {
            Err(error) => Err(error),
            Ok(Some(limit)) => Ok(limit),
            Ok(None) => Ok(sofar),
        },
    }
}

/// The selection after one more directory. One without a name is passed over.
pub open spec fn visit(selection: SelectionView, directory: DirectoryView) -> Result<
    SelectionView,
    SensorErrorView,
> {
    match (directory.name, directory.files) {
        (None, _) => Ok(selection),
        (Some(_), Err(text)) => Err(SensorErrorView::Enumerate(text)),
        (Some(name), Ok(files)) => {
            let name = trim_of(name);
            let temps = temps_of(directory.path, files);
            let fans = fans_of(directory.path, files);
            let limit = if name == "asus-nb-wmi"@ {
                limit_after(directory.path, files, selection.pl1_w)
            } else {
                Ok(selection.pl1_w)
            };
            match limit {
                Err(error) => Err(error),
                Ok(pl1_w) => Ok(
                    SelectionView {
                        temperature: if name == "k10temp"@ {
                            last_die_input(temps, temps.len() as int, selection.temperature)
                        } else {
                            selection.temperature
                        },
                        fallback_temperature: if name == "k10temp"@
                            && selection.fallback_temperature is None && temps.len() > 0 {
                            Some(temps[0].input)
                        } else {
                            selection.fallback_temperature
                        },
                        preferred_fans: if name == "asus"@ {
                            selection.preferred_fans + fans
                        } else {
                            selection.preferred_fans
                        },
                        fallback_fans: if name == "asus"@ {
                            selection.fallback_fans
                        } else {
                            selection.fallback_fans + fans
                        },
                        pl1_w,
                    },
                ),
            }
        },
    }
}

/// The selection after the first `count` directories.
pub open spec fn selection_of(directories: Seq<DirectoryView>, count: int) -> Result<
    SelectionView,
    SensorErrorView,
>
    decreases count,
{
    if count <= 0 {
        Ok(
            SelectionView {
                temperature: None,
                fallback_temperature: None,
                preferred_fans: Seq::empty(),
                fallback_fans: Seq::empty(),
                pl1_w: None,
            },
        )
    } else {
        match selection_of(directories, count - 1) {
            Err(error) => Err(error),
            Ok(selection) => visit(selection, directories[count - 1]),
        }
    }
}

fn limit_from(path: &str, files: &Vec<HwmonFile>, name: &str, divisor: i64) -> (result: Result<
    Option<Option<u32>>,
    SensorError,
>)
    requires
        divisor > 0,
    ensures
        sensor_result(result) == limit_of(
            path@ + "/"@ + name@,
            file_named(files.deep_view(), name@),
            divisor as int,
        ),
{
    let file: Result<String, String> = match find_file(files, name) {
        Some(file) => file,
        None => {
            return Ok(None);
        },
    };
    let mut whole: String = prefixed(path, "/");
    whole.append(name);
    match read_i64(whole.as_str(), file) {
        Err(error) => Err(error),
        Ok(raw) => {
            if raw < 0 {
                return Ok(None);
            }
            let watts: i64 = raw / divisor;
            if watts <= 0xffff_ffff {
                proof {
                    assert(watts >= 0) by (nonlinear_arith)
                        requires
                            watts == raw / divisor,
                            raw >= 0,
                            divisor > 0,
                    ;
                }
                Ok(Some(Some(watts as u32)))
            } else {
                Ok(Some(None))
            }
        },
    }
}

fn append_all(target: &mut Vec<SensorInput>, more: Vec<SensorInput>)
    ensures
        final(target).deep_view() == old(target).deep_view() + more.deep_view(),
{
    let ghost before = target.deep_view();
    let mut more: Vec<SensorInput> = more;
    let ghost added = more.deep_view();
    target.append(&mut more);
    assert(target.deep_view() =~= before + added);
}

impl SensorInput {
    fn duplicate(&self) -> (result: SensorInput)
        ensures
            result.deep_view() == self.deep_view(),
    {
        SensorInput {
            path: self.path.clone(),
            content: match &self.content {
                Ok(text) => Ok(text.clone()),
                Err(text) => Err(text.clone()),
            },
        }
    }
}

fn visit_temps(selection: &mut SensorSelection, temps: &Vec<TempInput>)
    ensures
        final(selection)@ == (SelectionView {
            temperature: last_die_input(
                temps.deep_view(),
                temps@.len() as int,
                old(selection)@.temperature,
            ),
            fallback_temperature: if old(selection)@.fallback_temperature is None && temps@.len()
                > 0 {
                Some(temps.deep_view()[0].input)
            } else {
                old(selection)@.fallback_temperature
            },
            ..old(selection)@
        }),
{
    let ghost before = selection@;
    if selection.fallback_temperature.is_none() && temps.len() > 0 {
        selection.fallback_temperature = Some(temps[0].input.duplicate());
        assert(temps.deep_view()[0] == temps@[0].deep_view());
    }
    let ghost fallback = selection@.fallback_temperature;
    let mut i: usize = 0;
    while i < temps.len()
        invariant
            i <= temps@.len(),
            selection@ == (SelectionView {
                temperature: last_die_input(temps.deep_view(), i as int, before.temperature),
                fallback_temperature: fallback,
                ..before
            }),
        decreases temps@.len() - i,
    {
        assert(temps.deep_view()[i as int] == temps@[i as int].deep_view());
        if die_label(temps[i].label.as_str()) {
            selection.temperature = Some(temps[i].input.duplicate());
        }
        i = i + 1;
    }
}

fn visit_directory(selection: SensorSelection, directory: &HwmonDirectory) -> (result: Result<
    SensorSelection,
    SensorError,
>)
    ensures
        match visit(selection@, directory.deep_view()) {
            Ok(after) => result matches Ok(found) && found@ == after,
            Err(error) => result matches Err(found) && found@ == error,
        },
{
    let mut selection: SensorSelection = selection;
    let name: &str = match &directory.name {
        Some(name) => trim(name.as_str()),
        None => {
            return Ok(selection);
        },
    };
    let files: &Vec<HwmonFile> = match &directory.files {
        Ok(files) => files,
        Err(text) => {
            return Err(SensorError::Enumerate(text.clone()));
        },
    };
    let path: &str = directory.path.as_str();
    if same(name, "k10temp") {
        visit_temps(&mut selection, &temp_inputs(path, files));
    }
    let fans: Vec<SensorInput> = fan_inputs(path, files);
    if same(name, "asus") {
        append_all(&mut selection.preferred_fans, fans);
    } else {
        append_all(&mut selection.fallback_fans, fans);
    }
    if same(name, "asus-nb-wmi") {
        proof {
            reveal_strlit("/");
            reveal_strlit("ppt_pl1_spl");
            reveal_strlit("/ppt_pl1_spl");
            reveal_strlit("power1_cap");
            reveal_strlit("/power1_cap");
            assert(path@ + "/"@ + "ppt_pl1_spl"@ =~= path@ + "/ppt_pl1_spl"@);
            assert(path@ + "/"@ + "power1_cap"@ =~= path@ + "/power1_cap"@);
        }
        match limit_from(path, files, "ppt_pl1_spl", 1) {
            Err(error) => {
                return Err(error);
            },
            Ok(Some(limit)) => {
                selection.pl1_w = limit;
                return Ok(selection);
            },
            Ok(None) => {},
        }
        match limit_from(path, files, "power1_cap", 1_000_000) {
            Err(error) => {
                return Err(error);
            },
            Ok(Some(limit)) => {
                selection.pl1_w = limit;
            },
            Ok(None) => {},
        }
    }
    Ok(selection)
}

fn select_sensors(directories: &Vec<HwmonDirectory>) -> (result: Result<
    SensorSelection,
    SensorError,
>)
    ensures
        match selection_of(directories.deep_view(), directories@.len() as int) {
            Ok(selection) => result matches Ok(found) && found@ == selection,
            Err(error) => result matches Err(found) && found@ == error,
        },
{
    let ghost all = directories.deep_view();
    let mut selection: SensorSelection = SensorSelection {
        temperature: None,
        fallback_temperature: None,
        preferred_fans: Vec::new(),
        fallback_fans: Vec::new(),
        pl1_w: None,
    };
    assert(selection@.preferred_fans =~= Seq::<InputView>::empty());
    assert(selection@.fallback_fans =~= Seq::<InputView>::empty());
    let mut i: usize = 0;
    while i < directories.len()
        invariant
            all == directories.deep_view(),
            i <= directories@.len(),
            selection_of(all, i as int) == Ok::<SelectionView, SensorErrorView>(selection@),
        decreases directories@.len() - i,
    {
        assert(all[i as int] == directories@[i as int].deep_view());
        match visit_directory(selection, &directories[i]) {
            Ok(after) => {
                selection = after;
            },
            Err(error) => {
                proof {
                    lemma_error_stays(all, i + 1, directories@.len() as int);
                }
                return Err(error);
            },
        }
        i = i + 1;
    }
    Ok(selection)
}

proof fn lemma_error_stays(directories: Seq<DirectoryView>, count: int, total: int)
    requires
        0 <= count <= total,
        selection_of(directories, count) is Err,
    ensures
        selection_of(directories, total) == selection_of(directories, count),
    decreases total,
{
    if count < total {
        lemma_error_stays(directories, count, total - 1);
    }
}

// ---------------------------------------------------------------------------
// Readings
// ---------------------------------------------------------------------------

/// The fan files that count: those of the vendor's device when it has two.
pub open spec fn chosen_fans(selection: SelectionView) -> Seq<InputView> {
    if selection.preferred_fans.len() >= 2 {
        selection.preferred_fans
    } else {
        selection.fallback_fans
    }
}

/// The temperature file that counts: the labelled one, else the processor's
/// first.
pub open spec fn chosen_temperature(selection: SelectionView) -> Option<InputView> {
    if selection.temperature is Some {
        selection.temperature
    } else {
        selection.fallback_temperature
    }
}

/// The reading that a selection gives.
pub open spec fn reading_of(selection: SelectionView) -> Result<SensorSnapshot, SensorErrorView> {
    match chosen_temperature(selection) {
        None => Err(SensorErrorView::TemperatureMissing),
        Some(input) => match temperature_of(input.path, input.content) {
            Err(error) => Err(error),
            Ok(apu_temperature_c) => {
                let fans = chosen_fans(selection);
                if fans.len() < 2 {
                    Err(SensorErrorView::FansMissing)
                } else {
                    match (
                        rpm_of(fans[0].path, fans[0].content),
                        rpm_of(fans[1].path, fans[1].content),
                    ) {
                        (Err(error), _) => Err(error),
                        (Ok(_), Err(error)) => Err(error),
                        (Ok(first), Ok(second)) => Ok(
                            SensorSnapshot {
                                apu_temperature_c,
                                rpm: [first, second],
                                pl1_w: selection.pl1_w,
                            },
                        ),
                    }
                }
            },
        },
    }
}

/// The reading that the listed devices give.
pub open spec fn snapshot_from(root: Result<Seq<DirectoryView>, Seq<char>>) -> Result<
    SensorSnapshot,
    SensorErrorView,
> {
    match root {
        Err(text) => Err(SensorErrorView::Enumerate(text)),
        Ok(directories) => match selection_of(
            in_order(directories),
            in_order(directories).len() as int,
        ) {
            Err(error) => Err(error),
            Ok(selection) => reading_of(selection),
        },
    }
}

fn reading(selection: &SensorSelection) -> (result: Result<SensorSnapshot, SensorError>)
    ensures
        sensor_result(result) == reading_of(selection@),
{
    let input: &SensorInput = match &selection.temperature {
        Some(input) => input,
        None => match &selection.fallback_temperature {
            Some(input) => input,
            None => {
                return Err(SensorError::TemperatureMissing);
            },
        },
    };
    let input: SensorInput = input.duplicate();
    let apu_temperature_c: i32 = match read_temperature(input.path.as_str(), input.content) {
        Ok(degrees) => degrees,
        Err(error) => {
            return Err(error);
        },
    };
    let fans: &Vec<SensorInput> = if selection.preferred_fans.len() >= 2 {
        &selection.preferred_fans
    } else {
        &selection.fallback_fans
    };
    if fans.len() < 2 {
        return Err(SensorError::FansMissing);
    }
    assert(fans.deep_view()[0] == fans@[0].deep_view());
    assert(fans.deep_view()[1] == fans@[1].deep_view());
    let first: SensorInput = fans[0].duplicate();
    let second: SensorInput = fans[1].duplicate();
    let first: u32 = match read_rpm(first.path.as_str(), first.content) {
        Ok(rpm) => rpm,
        Err(error) => {
            return Err(error);
        },
    };
    let second: u32 = match read_rpm(second.path.as_str(), second.content) {
        Ok(rpm) => rpm,
        Err(error) => {
            return Err(error);
        },
    };
    Ok(SensorSnapshot { apu_temperature_c, rpm: [first, second], pl1_w: selection.pl1_w })
}

/// Chooses the sensors among the listed devices and judges what they report. The
/// devices are visited in the order of their paths.
pub fn read_snapshot_from(root: Result<Vec<HwmonDirectory>, String>) -> (result: Result<
    SensorSnapshot,
    SensorError,
>)
    ensures
        sensor_result(result) == snapshot_from(root_view(root)),
{
    let directories: Vec<HwmonDirectory> = match root {
        Ok(directories) => ordered(directories),
        Err(text) => {
            return Err(SensorError::Enumerate(text));
        },
    };
    match select_sensors(&directories) {
        Ok(selection) => reading(&selection),
        Err(error) => Err(error),
    }
}

/// Reads all sensors; `platform` is the platform's own limit file, which counts
/// where no device reports a limit.
pub fn read_snapshot(
    root: Result<Vec<HwmonDirectory>, String>,
    platform: Option<Result<String, String>>,
) -> (result: Result<SensorSnapshot, SensorError>)
    ensures
        sensor_result(result) == (match snapshot_from(root_view(root)) {
            Err(error) => Err(error),
            Ok(snapshot) => if snapshot.pl1_w is Some {
                Ok(snapshot)
            } else {
                match platform_limit(PLATFORM_PL1@, optional_file(platform)) {
                    Err(error) => Err(error),
                    Ok(pl1_w) => Ok(SensorSnapshot { pl1_w, ..snapshot }),
                }
            },
        }),
{
    let mut snapshot: SensorSnapshot = match read_snapshot_from(root) {
        Ok(snapshot) => snapshot,
        Err(error) => {
            return Err(error);
        },
    };
    if snapshot.pl1_w.is_none() {
        match read_platform_pl1(PLATFORM_PL1, platform) {
            Ok(pl1_w) => {
                snapshot.pl1_w = pl1_w;
            },
            Err(error) => {
                return Err(error);
            },
        }
    }
    Ok(snapshot)
}

// ---------------------------------------------------------------------------
// Laws
// ---------------------------------------------------------------------------

/// Every temperature that passes is credible.
pub proof fn law_accepted_temperatures_are_credible(
    path: Seq<char>,
    file: Result<Seq<char>, Seq<char>>,
)
    requires
        temperature_of(path, file) is Ok,
    ensures
        -20 <= temperature_of(path, file)->Ok_0 <= 150,
{
}

proof fn lemma_put_keeps_order(directories: Seq<DirectoryView>, directory: DirectoryView)
    requires
        in_path_order(directories),
    ensures
        in_path_order(with_directory(directories, directory)),
        with_directory(directories, directory).to_multiset() == directories.to_multiset().insert(
            directory,
        ),
        forall|d: DirectoryView| #[trigger]
            with_directory(directories, directory).contains(d) ==> d == directory
                || directories.contains(d),
    decreases directories.len(),
{
    broadcast use vstd::seq_lib::group_to_multiset_ensures;

    let result = with_directory(directories, directory);
    if directories.len() > 0 && text_before(directory.path, directories.last().path) {
        let shorter = directories.drop_last();
        let last = directories.last();
        let inner = with_directory(shorter, directory);
        lemma_put_keeps_order(shorter, directory);
        assert(directories =~= shorter.push(last));
        assert(result == inner.push(last));
        assert forall|i: int, j: int| 0 <= i < j < result.len() implies !text_before(
            (#[trigger] result[j]).path,
            (#[trigger] result[i]).path,
        ) by {
            if j < inner.len() {
                assert(result[i] == inner[i] && result[j] == inner[j]);
            } else {
                assert(inner.contains(inner[i]));
                if result[i] == directory {
                    lemma_text_order(directory.path, last.path, directory.path);
                } else {
                    let at = shorter.index_of(result[i]);
                    assert(directories[at] == result[i]);
                    assert(directories[directories.len() - 1] == last);
                }
            }
        }
        assert forall|d: DirectoryView| #[trigger] result.contains(d) implies d == directory
            || directories.contains(d) by {
            let at = result.index_of(d);
            if at < inner.len() {
                assert(inner[at] == d);
                assert(inner.contains(d));
                if d != directory {
                    assert(directories[shorter.index_of(d)] == d);
                }
            } else {
                assert(directories[directories.len() - 1] == d);
            }
        }
    } else {
        assert forall|i: int, j: int| 0 <= i < j < result.len() implies !text_before(
            (#[trigger] result[j]).path,
            (#[trigger] result[i]).path,
        ) by {
            if j < directories.len() {
                assert(result[i] == directories[i] && result[j] == directories[j]);
            } else {
                let last = directories.last();
                if i < directories.len() - 1 {
                    assert(!text_before(
                        directories[directories.len() - 1].path,
                        directories[i].path,
                    ));
                }
                lemma_text_order(directory.path, directories[i].path, last.path);
                lemma_text_order(last.path, directory.path, directories[i].path);
                lemma_text_order(directories[i].path, last.path, directory.path);
            }
        }
        assert forall|d: DirectoryView| #[trigger] result.contains(d) implies d == directory
            || directories.contains(d) by {
            let at = result.index_of(d);
            if at < directories.len() {
                assert(directories[at] == d);
            }
        }
    }
}

/// Directories of which none comes before an earlier one.
pub open spec fn in_path_order(directories: Seq<DirectoryView>) -> bool {
    forall|i: int, j: int|
        0 <= i < j < directories.len() ==> !text_before(
            (#[trigger] directories[j]).path,
            (#[trigger] directories[i]).path,
        )
}

/// The devices are visited in the order of their paths, each as often as it is
/// listed.
pub proof fn law_devices_are_visited_in_order(directories: Seq<DirectoryView>)
    ensures
        in_path_order(in_order(directories)),
        in_order(directories).to_multiset() == directories.to_multiset(),
    decreases directories.len(),
{
    broadcast use vstd::seq_lib::group_to_multiset_ensures;

    if directories.len() > 0 {
        let shorter = directories.drop_last();
        law_devices_are_visited_in_order(shorter);
        lemma_put_keeps_order(in_order(shorter), directories.last());
        assert(directories =~= shorter.push(directories.last()));
    }
}

/// The inputs and labels that a reading looks at are sensor files.
pub proof fn law_inputs_and_labels_are_sensor_files(name: Seq<char>)
    ensures
        is_indexed_input(name, "fan"@) ==> names_sensor_file(name),
        is_indexed_input(name, "temp"@) ==> names_sensor_file(name) && names_sensor_file(
            name.take(name.len() - "_input"@.len()) + "_label"@,
        ),
{
    if is_indexed_input(name, "temp"@) {
        let label = name.take(name.len() - "_input"@.len()) + "_label"@;
        assert(label.subrange(0, "temp"@.len() as int) =~= name.subrange(
            0,
            "temp"@.len() as int,
        ));
    }
}

/// Two fan files of the vendor's device are preferred, whatever the others have.
pub proof fn law_vendor_fans_are_preferred(selection: SelectionView, others: Seq<InputView>)
    requires
        selection.preferred_fans.len() >= 2,
    ensures
        reading_of(SelectionView { fallback_fans: others, ..selection }) == reading_of(selection),
{
}

/// A temperature file in thousandths of a degree gives whole degrees, rounded
/// towards zero, from -20 to 150 °C; any other content is refused.
pub proof fn law_temperatures_are_whole_degrees(path: Seq<char>, text: Seq<char>, value: int)
    requires
        trim_of(text) == signed_decimal(value),
        i64::MIN <= value <= i64::MAX,
    ensures
        0 <= value < 151_000 ==> (temperature_of(path, Ok(text)) matches Ok(degrees) && 1000
            * degrees <= value < 1000 * (degrees + 1)),
        -21_000 < value <= 0 ==> (temperature_of(path, Ok(text)) matches Ok(degrees) && 1000 * (
        degrees - 1) < value <= 1000 * degrees),
        value >= 151_000 || value <= -21_000 ==> temperature_of(path, Ok(text)) is Err,
{
    law_written_numbers_are_read(value, i64::MIN as int, i64::MAX as int);
}

/// A speed file gives the number that it holds, and a platform limit likewise; a
/// negative number is refused, and so is what cannot be read. A limit that the
/// platform does not have is none.
pub proof fn law_speeds_are_the_numbers_read(
    path: Seq<char>,
    text: Seq<char>,
    value: int,
    source: Seq<char>,
)
    requires
        trim_of(text) == signed_decimal(value),
        i64::MIN <= value <= i64::MAX,
    ensures
        0 <= value <= u32::MAX ==> rpm_of(path, Ok(text)) == Ok::<u32, SensorErrorView>(
            value as u32,
        ) && platform_limit(path, Some(Ok(text))) == Ok::<Option<u32>, SensorErrorView>(
            Some(value as u32),
        ),
        value < 0 ==> rpm_of(path, Ok(text)) is Err,
        rpm_of(path, Err(source)) is Err,
        temperature_of(path, Err(source)) is Err,
        platform_limit(path, None) == Ok::<Option<u32>, SensorErrorView>(None),
{
    law_written_numbers_are_read(value, i64::MIN as int, i64::MAX as int);
}

/// The limit of the vendor's device in watts comes first, then the one in millionths
/// of a watt, rounded down; a negative number is no limit, and without either the
/// limit found before stays.
pub proof fn law_limits_are_read_in_watts(
    path: Seq<char>,
    files: Seq<FileView>,
    sofar: Option<u32>,
    watts: Seq<char>,
    micro: Seq<char>,
    value: int,
    other: int,
)
    requires
        trim_of(watts) == signed_decimal(value),
        trim_of(micro) == signed_decimal(other),
        i64::MIN <= value <= u32::MAX,
        i64::MIN <= other <= u32::MAX,
    ensures
        file_named(files, "ppt_pl1_spl"@) == Some(Ok::<Seq<char>, Seq<char>>(watts)) && value >= 0
            ==> limit_after(path, files, sofar) == Ok::<Option<u32>, SensorErrorView>(
            Some(value as u32),
        ),
        file_named(files, "ppt_pl1_spl"@) is None && file_named(files, "power1_cap"@) == Some(
            Ok::<Seq<char>, Seq<char>>(micro),
        ) && other >= 0 ==> (limit_after(path, files, sofar) matches Ok(Some(limit)) && 1_000_000
            * limit <= other < 1_000_000 * (limit + 1)),
        file_named(files, "ppt_pl1_spl"@) is None && file_named(files, "power1_cap"@) is None
            ==> limit_after(path, files, sofar) == Ok::<Option<u32>, SensorErrorView>(sofar),
{
    law_written_numbers_are_read(value, i64::MIN as int, i64::MAX as int);
    law_written_numbers_are_read(other, i64::MIN as int, i64::MAX as int);
}

proof fn lemma_last_die_input(
    temps: Seq<TempView>,
    count: int,
    sofar: Option<InputView>,
    i: int,
)
    requires
        0 <= i < count <= temps.len(),
        is_die_label(temps[i].label),
        forall|k: int| i < k < count ==> !is_die_label((#[trigger] temps[k]).label),
    ensures
        last_die_input(temps, count, sofar) == Some(temps[i].input),
    decreases count,
{
    if count - 1 > i {
        assert(!is_die_label(temps[count - 1].label));
        lemma_last_die_input(temps, count - 1, sofar, i);
    }
}

/// The sensor of the processor's die, by its label, is the temperature; its first
/// input serves where there is none so labelled. Fans of the vendor's device and of
/// others are kept apart, and every device but the processor's leaves the
/// temperature alone.
pub proof fn law_devices_are_read_for_what_they_are(
    selection: SelectionView,
    directory: DirectoryView,
    after: SelectionView,
    i: int,
)
    requires
        visit(selection, directory) == Ok::<SelectionView, SensorErrorView>(after),
    ensures
        directory.name is None ==> after == selection,
        directory.name matches Some(name) ==> (directory.files matches Ok(files) ==> {
            let temps = temps_of(directory.path, files);
            let fans = fans_of(directory.path, files);
            &&& trim_of(name) == "k10temp"@ && 0 <= i < temps.len() && (lower_of(
                trim_of(temps[i].label),
            ) == "tctl"@ || lower_of(trim_of(temps[i].label)) == "tdie"@) && (forall|k: int|
                i < k < temps.len() ==> !is_die_label((#[trigger] temps[k]).label))
                ==> after.temperature == Some(temps[i].input)
            &&& trim_of(name) == "k10temp"@ && temps.len() > 0 && selection.fallback_temperature
                is None ==> after.fallback_temperature == Some(temps[0].input)
            &&& trim_of(name) != "k10temp"@ ==> after.temperature == selection.temperature
                && after.fallback_temperature == selection.fallback_temperature
            &&& trim_of(name) == "asus"@ ==> after.preferred_fans == selection.preferred_fans + fans
                && after.fallback_fans == selection.fallback_fans
            &&& trim_of(name) != "asus"@ ==> after.fallback_fans == selection.fallback_fans + fans
                && after.preferred_fans == selection.preferred_fans
            &&& trim_of(name) != "asus-nb-wmi"@ ==> after.pl1_w == selection.pl1_w
        }),
{
    if let Some(name) = directory.name {
        if let Ok(files) = directory.files {
            let temps = temps_of(directory.path, files);
            if trim_of(name) == "k10temp"@ && 0 <= i < temps.len() && is_die_label(temps[i].label)
                && forall|k: int|
                i < k < temps.len() ==> !is_die_label((#[trigger] temps[k]).label) {
                lemma_last_die_input(temps, temps.len() as int, selection.temperature, i);
            }
        }
    }
}

/// A reading takes the die's temperature, else the fallback, and the first two fans,
/// those of the vendor where it has two; without them it fails.
pub proof fn law_readings_come_from_the_chosen_sensors(
    selection: SelectionView,
    snapshot: SensorSnapshot,
)
    ensures
        selection.temperature is None && selection.fallback_temperature is None ==> reading_of(
            selection,
        ) is Err,
        selection.preferred_fans.len() < 2 && selection.fallback_fans.len() < 2 ==> reading_of(
            selection,
        ) is Err,
        reading_of(selection) == Ok::<SensorSnapshot, SensorErrorView>(snapshot) ==> {
            let fans = if selection.preferred_fans.len() >= 2 {
                selection.preferred_fans
            } else {
                selection.fallback_fans
            };
            &&& selection.temperature matches Some(input) ==> temperature_of(
                input.path,
                input.content,
            ) == Ok::<i32, SensorErrorView>(snapshot.apu_temperature_c)
            &&& selection.temperature is None ==> (selection.fallback_temperature matches Some(
                input,
            ) && temperature_of(input.path, input.content) == Ok::<i32, SensorErrorView>(
                snapshot.apu_temperature_c,
            ))
            &&& fans.len() >= 2
            &&& rpm_of(fans[0].path, fans[0].content) == Ok::<u32, SensorErrorView>(
                snapshot.rpm@[0],
            )
            &&& rpm_of(fans[1].path, fans[1].content) == Ok::<u32, SensorErrorView>(
                snapshot.rpm@[1],
            )
            &&& snapshot.pl1_w == selection.pl1_w
        },
{
}

/// The inputs of a device are its files with the prefix, a number and `_input`, and
/// the label of one is in the file of the same number that ends in `_label`.
pub proof fn law_inputs_are_told_by_their_names(
    prefix: Seq<char>,
    digits: Seq<char>,
    files: Seq<FileView>,
)
    requires
        all_digits(digits),
    ensures
        is_indexed_input(prefix + digits + "_input"@, prefix),
        file_named(files, prefix + digits + "_label"@) matches Some(Ok(text)) ==> label_of(
            files,
            prefix + digits + "_input"@,
        ) == text,
        file_named(files, prefix + digits + "_label"@) is None ==> label_of(
            files,
            prefix + digits + "_input"@,
        ).len() == 0,
{
    let name = prefix + digits + "_input"@;
    let stem = prefix + digits;
    assert(name.subrange(0, prefix.len() as int) =~= prefix);
    assert(name.subrange(stem.len() as int, name.len() as int) =~= "_input"@);
    assert(name.subrange(prefix.len() as int, name.len() - "_input"@.len()) =~= digits);
    assert(name.take(name.len() - "_input"@.len()) =~= stem);
}

/// A file is found by its name, and an input is read from the file of its name below
/// the device.
pub proof fn law_files_are_found_by_their_names(
    path: Seq<char>,
    files: Seq<FileView>,
    at: int,
)
    requires
        0 <= at < files.len(),
        forall|i: int| 0 <= i < at ==> (#[trigger] files[i]).name != files[at].name,
    ensures
        file_named(files, files[at].name) == Some(files[at].content),
        input_of(path, files, files[at].name).content == files[at].content,
        input_of(path, files, files[at].name).path == path + "/"@ + files[at].name,
    decreases files.len(),
{
    if at > 0 {
        let rest = files.drop_first();
        assert(files[0].name != files[at].name);
        assert forall|i: int| 0 <= i < at - 1 implies (#[trigger] rest[i]).name
            != rest[at - 1].name by {
            assert(rest[i] == files[i + 1]);
        }
        assert(rest[at - 1] == files[at]);
        law_files_are_found_by_their_names(path, rest, at - 1);
    }
}

/// A snapshot is the reading of what all devices, one after the other, were selected
/// for; without a list of devices, or where one cannot be read, there is none.
pub proof fn law_every_device_is_visited(
    directories: Seq<DirectoryView>,
    count: int,
    text: Seq<char>,
    selection: SelectionView,
)
    requires
        0 <= count < directories.len(),
    ensures
        snapshot_from(Err(text)) is Err,
        selection_of(directories, count) == Ok::<SelectionView, SensorErrorView>(selection)
            ==> selection_of(directories, count + 1) == visit(selection, directories[count]),
        selection_of(directories, count) is Err ==> selection_of(directories, count + 1) is Err,
        selection_of(in_order(directories), in_order(directories).len() as int) == Ok::<
            SelectionView,
            SensorErrorView,
        >(selection) ==> snapshot_from(Ok(directories)) == reading_of(selection),
        selection_of(directories, 0) matches Ok(none) && none.temperature is None
            && none.fallback_temperature is None && none.preferred_fans.len() == 0
            && none.fallback_fans.len() == 0 && none.pl1_w is None,
{
}

} // verus!
