use vstd::prelude::*;

verus! {

/// A string-valued parameter declaration: name, label, page and default.
#[derive(Clone, Debug)]
pub struct StringParameter {
    pub name: String,
    pub label: String,
    pub page: String,
    pub default_value: String,
}

/// The mathematical record of a string parameter declaration.
pub ghost struct ParamRecord {
    pub name: Seq<char>,
    pub label: Seq<char>,
    pub page: Seq<char>,
    pub default_value: Seq<char>,
}

impl StringParameter {
    /// The record this declaration denotes.
    pub open spec fn record(self) -> ParamRecord {
        ParamRecord {
            name: self.name@,
            label: self.label@,
            page: self.page@,
            default_value: self.default_value@,
        }
    }
}

/// The kind of parameter a declaration registers with the host.
#[derive(Clone, Copy, Debug, PartialEq, Eq, Structural)]
pub enum ParamKind {
    StringValue,
    FilePath,
    FolderPath,
    DatRef,
    ChopRef,
    TopRef,
    ObjectRef,
    SopRef,
    PythonRef,
    OpRef,
    CompRef,
    MatRef,
    PanelCompRef,
    Header,
}

/// One registered parameter: its kind and its declaration.
#[derive(Clone, Debug)]
pub struct ParamDecl {
    pub kind: ParamKind,
    pub param: StringParameter,
}

/// Collects the operator's parameter declarations, in registration order,
/// for the surrounding shim to hand to the host.
#[derive(Debug)]
pub struct ParameterManager {
    pub params: Vec<ParamDecl>,
}

impl ParameterManager {
    /// The registered sequence: kind and record of every appended parameter,
    /// in order.
    pub open spec fn view(self) -> Seq<(ParamKind, ParamRecord)> {
        self.params@.map_values(|d: ParamDecl| (d.kind, d.param.record()))
    }

    /// An empty registry, ready to collect an operator's parameters.
    pub fn new() -> (r: ParameterManager)
        ensures
            r.view() == Seq::<(ParamKind, ParamRecord)>::empty(),
    {
        let r = ParameterManager { params: Vec::new() };
        proof {
            assert(r.view() =~= Seq::<(ParamKind, ParamRecord)>::empty());
        }
        r
    }

    /// Append one declaration of the given kind.
    fn append_decl(&mut self, kind: ParamKind, param: StringParameter)
        ensures
            final(self).view() == old(self).view().push((kind, param.record())),
    {
        let ghost rec = param.record();
        self.params.push(ParamDecl { kind, param });
        proof {
            assert(final(self).view() =~= old(self).view().push((kind, rec)));
        }
    }

    /// Register a plain string parameter.
    pub fn append_string(&mut self, param: StringParameter)
        ensures
            final(self).view() == old(self).view().push((ParamKind::StringValue, param.record())),
    {
        self.append_decl(ParamKind::StringValue, param);
    }

    /// Register a file-path parameter.
    pub fn append_file(&mut self, param: StringParameter)
        ensures
            final(self).view() == old(self).view().push((ParamKind::FilePath, param.record())),
    {
        self.append_decl(ParamKind::FilePath, param);
    }

    /// Register a folder-path parameter.
    pub fn append_folder(&mut self, param: StringParameter)
        ensures
            final(self).view() == old(self).view().push((ParamKind::FolderPath, param.record())),
    {
        self.append_decl(ParamKind::FolderPath, param);
    }

    /// Register a DAT-reference parameter.
    pub fn append_dat(&mut self, param: StringParameter)
        ensures
            final(self).view() == old(self).view().push((ParamKind::DatRef, param.record())),
    {
        self.append_decl(ParamKind::DatRef, param);
    }

    /// Register a CHOP-reference parameter.
    pub fn append_chop(&mut self, param: StringParameter)
        ensures
            final(self).view() == old(self).view().push((ParamKind::ChopRef, param.record())),
    {
        self.append_decl(ParamKind::ChopRef, param);
    }

    /// Register a TOP-reference parameter.
    pub fn append_top(&mut self, param: StringParameter)
        ensures
            final(self).view() == old(self).view().push((ParamKind::TopRef, param.record())),
    {
        self.append_decl(ParamKind::TopRef, param);
    }

    /// Register an object-reference parameter.
    pub fn append_object(&mut self, param: StringParameter)
        ensures
            final(self).view() == old(self).view().push((ParamKind::ObjectRef, param.record())),
    {
        self.append_decl(ParamKind::ObjectRef, param);
    }

    /// Register a SOP-reference parameter.
    pub fn append_sop(&mut self, param: StringParameter)
        ensures
            final(self).view() == old(self).view().push((ParamKind::SopRef, param.record())),
    {
        self.append_decl(ParamKind::SopRef, param);
    }

    /// Register a Python expression parameter.
    pub fn append_python(&mut self, param: StringParameter)
        ensures
            final(self).view() == old(self).view().push((ParamKind::PythonRef, param.record())),
    {
        self.append_decl(ParamKind::PythonRef, param);
    }

    /// Register an operator-reference parameter.
    pub fn append_op(&mut self, param: StringParameter)
        ensures
            final(self).view() == old(self).view().push((ParamKind::OpRef, param.record())),
    {
        self.append_decl(ParamKind::OpRef, param);
    }

    /// Register a component-reference parameter.
    pub fn append_comp(&mut self, param: StringParameter)
        ensures
            final(self).view() == old(self).view().push((ParamKind::CompRef, param.record())),
    {
        self.append_decl(ParamKind::CompRef, param);
    }

    /// Register a material-reference parameter.
    pub fn append_mat(&mut self, param: StringParameter)
        ensures
            final(self).view() == old(self).view().push((ParamKind::MatRef, param.record())),
    {
        self.append_decl(ParamKind::MatRef, param);
    }

    /// Register a panel-component-reference parameter.
    pub fn append_panel_comp(&mut self, param: StringParameter)
        ensures
            final(self).view() == old(self).view().push((ParamKind::PanelCompRef, param.record())),
    {
        self.append_decl(ParamKind::PanelCompRef, param);
    }

    /// Register a section header.
    pub fn append_header(&mut self, param: StringParameter)
        ensures
            final(self).view() == old(self).view().push((ParamKind::Header, param.record())),
    {
        self.append_decl(ParamKind::Header, param);
    }
}

/// One named reading the host exposes during a parameter update: an integer
/// reading (toggles read 0 or 1) or a text reading.
#[derive(Clone, Debug)]
pub enum ParamReading {
    IntValue(i64),
    Text(String),
}

/// A reading together with the parameter name it belongs to.
#[derive(Clone, Debug)]
pub struct NamedReading {
    pub name: String,
    pub reading: ParamReading,
}

/// The readings of one update pass, in the order the host listed them.
#[derive(Debug)]
pub struct ParamInputs {
    pub readings: Vec<NamedReading>,
}

impl ParamInputs {
    /// Wrap the readings of one update pass.
    pub fn new(readings: Vec<NamedReading>) -> (r: ParamInputs)
        ensures
            r.readings@ == readings@,
    {
        ParamInputs { readings }
    }

    /// How many readings this pass carries.
    pub fn num_readings(&self) -> (r: usize)
        ensures
            r == self.readings@.len(),
    {
        self.readings.len()
    }

    /// The reading at position `index`.
    pub fn reading(&self, index: usize) -> (r: &NamedReading)
        requires
            index < self.readings@.len(),
        ensures
            *r == self.readings@[index as int],
    {
        &self.readings[index]
    }
}

/// One channel of samples handed in by a channel-operator input, carried as
/// raw 32-bit words.
#[derive(Clone, Debug)]
pub struct ChopChannel {
    pub samples: Vec<u32>,
}

/// A channel-operator input: zero or more equally meaningful channels.
#[derive(Debug)]
pub struct ChopInput {
    pub channels: Vec<ChopChannel>,
}

impl ChopInput {
    /// Number of channels this input carries.
    pub fn num_channels(&self) -> (r: usize)
        ensures
            r == self.channels@.len(),
    {
        self.channels.len()
    }

    /// The samples of channel `index`.
    pub fn channel(&self, index: usize) -> (r: &Vec<u32>)
        requires
            index < self.channels@.len(),
        ensures
            r@ == self.channels@[index as int].samples@,
    {
        &self.channels[index].samples
    }
}

/// A surface-operator input. The host exposes geometry through it; nothing
/// of that geometry is read by this library.
#[derive(Debug)]
pub struct SopInput {
    pub num_points: usize,
}

/// Static operator metadata the host reads at registration time; every item
/// has the registration default.
pub trait OpInfo {
    /// The type identifier of the operator.
    fn operator_type() -> String {
        String::new()
    }

    /// The label shown for the operator.
    fn operator_label() -> String {
        String::new()
    }

    /// The icon name of the operator.
    fn operator_icon() -> String {
        String::new()
    }

    /// The minimum number of inputs the operator accepts.
    fn min_inputs() -> usize {
        0
    }

    /// The maximum number of inputs the operator accepts.
    fn max_inputs() -> usize {
        0
    }

    /// The author name of the operator.
    fn author_name() -> String {
        String::new()
    }

    /// The author email of the operator.
    fn author_email() -> String {
        String::new()
    }

    /// The major version of the operator.
    fn major_version() -> i32 {
        0
    }

    /// The minor version of the operator.
    fn minor_version() -> i32 {
        0
    }

    /// The Python version the operator asks for.
    fn python_version() -> String {
        String::new()
    }

    /// Whether the operator cooks once on start.
    fn cook_on_start() -> bool {
        false
    }
}

/// An operator's parameter record: how it registers its parameters and how
/// it updates itself from one pass of host readings.
pub trait OperatorParams {
    /// Register every parameter with the manager.
    fn register(&mut self, parameter_manager: &mut ParameterManager);

    /// Update the record from the readings of one pass.
    fn update(&mut self, inputs: &ParamInputs);
}

/// A parameter value registered as a folder path.
#[derive(Clone, Debug)]
pub struct Folder {
    pub path: String,
}

/// A parameter value registered as a file path.
#[derive(Clone, Debug)]
pub struct File {
    pub path: String,
}

} // verus!
