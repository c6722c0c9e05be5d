//! Shader-pipeline lifecycle decisions: validating source text, turning
//! the driver compiler's and linker's reports into owned handles or
//! surfaced diagnostics, planning the attach/link/detach sequence, and
//! resolving named attribute and uniform locations without ever treating
//! the driver's "not found" sentinel as a valid slot.
//!
//! The driver itself lives outside the library: the caller submits
//! source text and queries, and hands the status flags, diagnostic logs
//! and raw locations it got back to the decision functions here.

use vstd::prelude::*;

use crate::command::GlCommand;

verus! {

/// A shader pipeline stage.
#[derive(Clone, Copy, Debug, PartialEq, Eq, Structural)]
pub enum Stage {
    Vertex,
    Fragment,
}

/// The driver's numeric name for a stage's compiler entry point.
pub open spec fn stage_code_spec(stage: Stage) -> u32 {
    match stage {
        Stage::Vertex => 0x8B31u32,
        Stage::Fragment => 0x8B30u32,
    }
}

/// The driver's numeric name for a stage's compiler entry point.
pub fn stage_code(stage: Stage) -> (c: u32)
    ensures
        c == stage_code_spec(stage),
{
    match stage {
        Stage::Vertex => 0x8B31u32,
        Stage::Fragment => 0x8B30u32,
    }
}

/// Why a pipeline construction step failed. All four are fatal to setup:
/// there is no fallback pipeline.
#[derive(Debug)]
pub enum ShaderError {
    /// A stage failed to compile; carries the driver's diagnostic verbatim.
    Compile { stage: Stage, log: String },
    /// The program failed to link; carries the driver's diagnostic verbatim.
    Link { log: String },
    /// A named attribute or uniform is absent from the linked program,
    /// or the driver surfaced an error while resolving it.
    NotFound,
    /// Source text holds an embedded NUL and cannot reach the compiler.
    InvalidSource,
}

/// A successfully compiled shader stage: the driver handle and the stage
/// it was compiled for. No partially compiled unit exists: the only
/// constructor is `compile_outcome` on a success report.
pub struct ShaderUnit {
    /// The driver's handle for the compiled shader object.
    pub id: u32,
    /// The stage the unit was compiled for.
    pub stage: Stage,
}

/// A successfully linked shader program, ready to activate.
pub struct ShaderProgram {
    /// The driver's handle for the linked program object.
    pub id: u32,
}

/// Does the text hold an embedded NUL byte?
pub open spec fn has_nul_spec(s: Seq<u8>) -> bool {
    exists|i: int| 0 <= i < s.len() && s[i] == 0u8
}

/// Is the text a usable slot name: non-empty, with no embedded NUL?
pub open spec fn name_valid_spec(s: Seq<u8>) -> bool {
    s.len() > 0 && !has_nul_spec(s)
}

/// Validate shader source text before it is handed to the driver's
/// compiler: text with an embedded NUL is rejected as `InvalidSource`,
/// and all other text is accepted.
pub fn check_source(source: &Vec<u8>) -> (r: Result<(), ShaderError>)
    ensures
        !has_nul_spec(source@) ==> r == Ok::<(), ShaderError>(()),
        has_nul_spec(source@) ==> r == Err::<(), ShaderError>(ShaderError::InvalidSource),
{
    let n: usize = source.len();
    let mut i: usize = 0;
    while i < n
        invariant
            i <= n,
            n == source@.len(),
            forall|j: int| 0 <= j < i ==> source@[j] != 0u8,
        decreases n - i,
    {
        if source[i] == 0u8 {
            return Err(ShaderError::InvalidSource);
        }
        i = i + 1;
    }
    Ok(())
}

/// Is the text a usable slot name: non-empty, with no embedded NUL?
pub fn name_valid(name: &Vec<u8>) -> (b: bool)
    ensures
        b == name_valid_spec(name@),
{
    let n: usize = name.len();
    if n == 0 {
        return false;
    }
    let mut i: usize = 0;
    while i < n
        invariant
            i <= n,
            n == name@.len(),
            forall|j: int| 0 <= j < i ==> name@[j] != 0u8,
        decreases n - i,
    {
        if name[i] == 0u8 {
            assert(has_nul_spec(name@));
            return false;
        }
        i = i + 1;
    }
    true
}

/// The unit or error that one stage's compile report settles into.
pub open spec fn compile_outcome_spec(id: u32, stage: Stage, status_ok: bool, log: String) -> Result<
    ShaderUnit,
    ShaderError,
> {
    if status_ok {
        Ok(ShaderUnit { id, stage })
    } else {
        Err(ShaderError::Compile { stage, log })
    }
}

/// Decide one stage's fate from the driver compiler's report: a success
/// report makes the handle an owned `ShaderUnit`; a failure report
/// surfaces the driver's diagnostic verbatim, and no unit escapes. On
/// failure the caller must release the failed handle before carrying the
/// error on.
pub fn compile_outcome(id: u32, stage: Stage, status_ok: bool, log: String) -> (r: Result<
    ShaderUnit,
    ShaderError,
>)
    ensures
        r == compile_outcome_spec(id, stage, status_ok, log),
{
    if status_ok {
        Ok(ShaderUnit { id, stage })
    } else {
        Err(ShaderError::Compile { stage, log })
    }
}

/// The program or error that the linker's report settles into.
pub open spec fn link_outcome_spec(id: u32, status_ok: bool, log: String) -> Result<
    ShaderProgram,
    ShaderError,
> {
    if status_ok {
        Ok(ShaderProgram { id })
    } else {
        Err(ShaderError::Link { log })
    }
}

/// Decide the program's fate from the driver linker's report: a success
/// report makes the handle an owned `ShaderProgram`; a failure report
/// surfaces the driver's diagnostic verbatim, and no program escapes. On
/// failure the caller must release the failed handle before carrying the
/// error on.
pub fn link_outcome(id: u32, status_ok: bool, log: String) -> (r: Result<
    ShaderProgram,
    ShaderError,
>)
    ensures
        r == link_outcome_spec(id, status_ok, log),
{
    if status_ok {
        Ok(ShaderProgram { id })
    } else {
        Err(ShaderError::Link { log })
    }
}

/// Is the driver's raw answer for a named slot usable? Only a query that
/// surfaced no driver error and came back nonnegative is: the sentinel
/// -1 (and any other negative answer) means the name is absent.
pub open spec fn location_ok_spec(raw: int, driver_error: int) -> bool {
    driver_error == 0 && raw >= 0
}

/// The slot or error that the driver's raw answer settles into.
pub open spec fn resolve_location_spec(raw: i32, driver_error: u32) -> Result<u32, ShaderError> {
    if location_ok_spec(raw as int, driver_error as int) {
        Ok(raw as u32)
    } else {
        Err(ShaderError::NotFound)
    }
}

/// Decide a resolved location from the driver's raw answer and error
/// flag: a clean, nonnegative answer is the slot; the "not found"
/// sentinel or any surfaced driver error is `NotFound`. A negative raw
/// answer is never handed on as an unsigned slot.
pub fn resolve_location(raw: i32, driver_error: u32) -> (r: Result<u32, ShaderError>)
    ensures
        r == resolve_location_spec(raw, driver_error),
        r matches Ok(loc) ==> raw >= 0 && loc == raw,
{
    if driver_error != 0 {
        Err(ShaderError::NotFound)
    } else if raw < 0 {
        Err(ShaderError::NotFound)
    } else {
        Ok(raw as u32)
    }
}

/// The attach-and-link command sequence for a program and its units:
/// every unit is attached, in order, and then the program is linked.
pub open spec fn attach_link_plan_spec(program: u32, units: Seq<ShaderUnit>) -> Seq<GlCommand> {
    Seq::new(units.len(), |i: int| GlCommand::AttachShader { program, shader: units[i].id }).push(
        GlCommand::LinkProgram { program },
    )
}

/// Plan the attach-and-link sequence for a program handle and a set of
/// compiled units: attach every unit in order, then link.
pub fn attach_link_plan(program: u32, units: &Vec<ShaderUnit>) -> (cmds: Vec<GlCommand>)
    ensures
        cmds@ == attach_link_plan_spec(program, units@),
{
    let n: usize = units.len();
    let mut cmds: Vec<GlCommand> = Vec::new();
    let mut i: usize = 0;
    while i < n
        invariant
            i <= n,
            n == units@.len(),
            cmds@.len() == i,
            forall|j: int|
                0 <= j < i ==> cmds@[j] == (GlCommand::AttachShader {
                    program,
                    shader: units@[j].id,
                }),
        decreases n - i,
    {
        cmds.push(GlCommand::AttachShader { program, shader: units[i].id });
        i = i + 1;
    }
    cmds.push(GlCommand::LinkProgram { program });
    proof {
        assert(cmds@ =~= attach_link_plan_spec(program, units@));
    }
    cmds
}

/// The detach sequence that follows a successful link: every unit is
/// detached from the program, in order, so dropping a unit later cannot
/// affect the linked program.
pub open spec fn detach_plan_spec(program: u32, units: Seq<ShaderUnit>) -> Seq<GlCommand> {
    Seq::new(units.len(), |i: int| GlCommand::DetachShader { program, shader: units[i].id })
}

/// Plan the detach sequence after a successful link: detach every unit,
/// in order.
pub fn detach_plan(program: u32, units: &Vec<ShaderUnit>) -> (cmds: Vec<GlCommand>)
    ensures
        cmds@ == detach_plan_spec(program, units@),
{
    let n: usize = units.len();
    let mut cmds: Vec<GlCommand> = Vec::new();
    let mut i: usize = 0;
    while i < n
        invariant
            i <= n,
            n == units@.len(),
            cmds@.len() == i,
            forall|j: int|
                0 <= j < i ==> cmds@[j] == (GlCommand::DetachShader {
                    program,
                    shader: units@[j].id,
                }),
        decreases n - i,
    {
        cmds.push(GlCommand::DetachShader { program, shader: units[i].id });
        i = i + 1;
    }
    proof {
        assert(cmds@ =~= detach_plan_spec(program, units@));
    }
    cmds
}

/// Law: when the driver reports success everywhere — both stages
/// compile, the program links, and both queried names come back clean
/// and nonnegative — every step of the pipeline construction yields a
/// success: compiling yields the two units, linking yields the program,
/// and both names resolve to their slots.
pub proof fn lemma_pipeline_success(
    vert_id: u32,
    frag_id: u32,
    prog_id: u32,
    vlog: String,
    flog: String,
    llog: String,
    attr_raw: i32,
    uni_raw: i32,
)
    requires
        attr_raw >= 0,
        uni_raw >= 0,
    ensures
        compile_outcome_spec(vert_id, Stage::Vertex, true, vlog) == Ok::<ShaderUnit, ShaderError>(
            ShaderUnit { id: vert_id, stage: Stage::Vertex },
        ),
        compile_outcome_spec(frag_id, Stage::Fragment, true, flog) == Ok::<
            ShaderUnit,
            ShaderError,
        >(ShaderUnit { id: frag_id, stage: Stage::Fragment }),
        link_outcome_spec(prog_id, true, llog) == Ok::<ShaderProgram, ShaderError>(
            ShaderProgram { id: prog_id },
        ),
        resolve_location_spec(attr_raw, 0) == Ok::<u32, ShaderError>(attr_raw as u32),
        resolve_location_spec(uni_raw, 0) == Ok::<u32, ShaderError>(uni_raw as u32),
{
}

/// Law: a failed compile surfaces the driver's diagnostic verbatim and
/// yields no unit, whatever the handle or stage; the failed handle never
/// escapes as a success.
pub proof fn lemma_compile_failure_surfaces_log(id: u32, stage: Stage, log: String)
    ensures
        compile_outcome_spec(id, stage, false, log) == Err::<ShaderUnit, ShaderError>(
            ShaderError::Compile { stage, log },
        ),
        !(compile_outcome_spec(id, stage, false, log) matches Ok(_)),
{
}

/// Law: a name the driver does not find — the sentinel -1 or any other
/// negative answer — or a query the driver flagged with an error always
/// resolves to `NotFound`; a negative answer is never accepted as a slot.
pub proof fn lemma_absent_name_not_found(raw: i32, driver_error: u32)
    requires
        raw < 0 || driver_error != 0,
    ensures
        resolve_location_spec(raw, driver_error) == Err::<u32, ShaderError>(ShaderError::NotFound),
{
}

} // verus!
