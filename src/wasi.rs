//! The parameters of a guest's WASI environment.
use vstd::prelude::*;

verus! {

/// What a WASI instance is built from; kept across hot swaps.
#[derive(Debug, Default)]
pub struct WasiParams {
    pub argv: Vec<String>,
    pub map_dirs: Vec<(String, String)>,
    pub env_vars: Vec<(String, String)>,
    pub preopened_dirs: Vec<String>,
}

impl WasiParams {
    pub fn new(
        argv: Vec<String>,
        map_dirs: Vec<(String, String)>,
        env_vars: Vec<(String, String)>,
        preopened_dirs: Vec<String>,
    ) -> (r: WasiParams)
        ensures
            r.argv == argv,
            r.map_dirs == map_dirs,
            r.env_vars == env_vars,
            r.preopened_dirs == preopened_dirs,
    {
        WasiParams { argv, map_dirs, preopened_dirs, env_vars }
    }
}

/// The argument vector of a guest program: its program name, then its arguments.
pub fn compute_argv(program: String, module_args: Vec<String>) -> (r: Vec<String>)
    ensures
        r@.len() == module_args@.len() + 1,
        r@[0] == program,
        forall|i: int| 0 <= i < module_args@.len() ==> r@[i + 1] == module_args@[i],
{
    let mut result: Vec<String> = Vec::new();
    result.push(program);
    let mut i: usize = 0;
    while i < module_args.len()
        invariant
            0 <= i <= module_args@.len(),
            result@.len() == i + 1,
            result@[0] == program,
            forall|j: int| 0 <= j < i ==> result@[j + 1] == module_args@[j],
        decreases module_args@.len() - i,
    {
        result.push(module_args[i].clone());
        i = i + 1;
    }
    result
}

} // verus!
