//! The container-run plan: everything the container runtime needs to
//! create and start a build container, assembled from the configuration.
//! Talking to the runtime is the binary's work; the assembly rules are
//! verified here.

use vstd::prelude::*;

use crate::cfg::ConfigView;
use crate::cfg::get_docker_env;
use crate::cfg::get_docker_image;
use crate::cfg::get_docker_name;
use crate::cfg::get_docker_remove;
use crate::cfg::get_docker_stderr;
use crate::cfg::get_docker_stdout;
use crate::cfg::or_false;

verus! {

/// What one build container is created with.
pub struct ContainerPlan {
    pub name: Option<String>,
    pub image: String,
    pub env: Vec<String>,
    pub attach_stdout: bool,
    pub attach_stderr: bool,
    pub auto_remove: bool,
    pub command: Vec<String>,
}

/// The plan for running `cmd` in a container. The `docker.image` key is
/// mandatory; every other key degrades to its default.
pub fn container_plan(cmd: Vec<String>, cfg: &ConfigView) -> (r: Result<ContainerPlan, String>)
    ensures
        match r {
            Ok(p) => {
                &&& Some(p.image) == cfg.docker_image
                &&& p.name == cfg.docker_name
                &&& p.env@ == match cfg.docker_env {
                    Some(e) => e@,
                    None => Seq::<String>::empty(),
                }
                &&& p.attach_stdout == or_false(cfg.docker_stdout)
                &&& p.attach_stderr == or_false(cfg.docker_stderr)
                &&& p.auto_remove == or_false(cfg.docker_remove)
                &&& p.command == cmd
            },
            Err(m) => {
                &&& cfg.docker_image is None
                &&& m@ == "`docker.image` field is mandatory when using Docker"@
            },
        },
{
    let image = match get_docker_image(cfg) {
        Some(img) => img,
        None => {
            return Err("`docker.image` field is mandatory when using Docker".to_owned());
        },
    };
    Ok(
        ContainerPlan {
            name: get_docker_name(cfg),
            image,
            env: get_docker_env(cfg),
            attach_stdout: get_docker_stdout(cfg),
            attach_stderr: get_docker_stderr(cfg),
            auto_remove: get_docker_remove(cfg),
            command: cmd,
        },
    )
}

} // verus!
