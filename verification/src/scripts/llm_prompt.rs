//! The script function `llm_prompt`: its place in the map of functions
//! that a script may call.
use sieve::FunctionMap;
use vstd::prelude::*;

verus! {

/// The map of script functions of `sieve`, opaque to the verifier.
#[verifier::external_type_specification]
#[verifier::external_body]
pub struct ExFunctionMap(FunctionMap);

/// The functions of a map by their names: for each the number under which
/// the map holds it and the number of its arguments.
pub uninterp spec fn functions_of(map: FunctionMap) -> Map<Seq<char>, (u32, u32)>;

/// The number from which the map counts the functions of the host down.
pub const ID_EXTERNAL: u32 = 0xffff_fffd;

/// The name of the function in scripts.
pub const FUNCTION_NAME: &'static str = "llm_prompt";

/// The number of arguments of the function.
pub const FUNCTION_ARGS: u32 = 3;

/// `FunctionMap::set_external_function` puts the name into the map with
/// the number `ID_EXTERNAL - id` and the number of arguments, in place of
/// what the name had. The subtraction fails for an id above `ID_EXTERNAL`,
/// which the precondition rules out.
#[verifier::external_body]
fn set_external_function(map: &mut FunctionMap, name: &str, id: u32, num_args: u32)
    requires
        id <= ID_EXTERNAL,
    ensures
        functions_of(*final(map)) == functions_of(*old(map)).insert(
            name@,
            ((ID_EXTERNAL - id) as u32, num_args),
        ),
{
    map.set_external_function(name, id, num_args);
}

/// Makes `llm_prompt` known to scripts as the function of the host with
/// the given id, with three arguments.
pub fn register(plugin_id: u32, fnc_map: &mut FunctionMap)
    requires
        plugin_id <= ID_EXTERNAL,
    ensures
        functions_of(*final(fnc_map)) == functions_of(*old(fnc_map)).insert(
            FUNCTION_NAME@,
            ((ID_EXTERNAL - plugin_id) as u32, FUNCTION_ARGS),
        ),
{
    set_external_function(fnc_map, FUNCTION_NAME, plugin_id, FUNCTION_ARGS);
}

/// Makes `llm_prompt` known to scripts if the id can be given to the map,
/// and says whether it did.
pub fn try_register(plugin_id: u32, fnc_map: &mut FunctionMap) -> (done: bool)
    ensures
        done == (plugin_id <= ID_EXTERNAL),
        done ==> functions_of(*final(fnc_map)) == functions_of(*old(fnc_map)).insert(
            FUNCTION_NAME@,
            ((ID_EXTERNAL - plugin_id) as u32, FUNCTION_ARGS),
        ),
        !done ==> *final(fnc_map) == *old(fnc_map),
{
    if plugin_id <= ID_EXTERNAL {
        register(plugin_id, fnc_map);
        true
    } else {
        false
    }
}

} // verus!
