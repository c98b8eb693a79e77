//! The fragment stage of the volume projection.

use vstd::prelude::*;

verus! {

/// Name of the uniform that holds the position of the viewer.
pub const CAMERA_POSITION: &'static str = "cameraPosition";

/// Name of the uniform that holds the size of the box.
pub const SIZE: &'static str = "size";

/// Name of the sampler that the volume texture is bound to.
pub const VOXELS: &'static str = "tex";

/// Name of the uniform that selects the reduction.
pub const RENDERING_STYLE: &'static str = "renderingStyle";

/// The ray-marching body shared by all rendering styles. It expects
/// `calculate_lighting`, `tone_mapping` and `color_mapping` to be declared by
/// the text in front of it, and reads the uniforms named above.
pub const VOLUME_PROJECTION_SHADER: &'static str = "
uniform sampler3D tex;
uniform vec3 size;
uniform vec3 cameraPosition;
uniform int renderingStyle;

in vec3 pos;

layout (location = 0) out vec4 outColor;

const int STEP_COUNT = 200;
const int MINIMUM_INTENSITY = 0;
const int MAXIMUM_INTENSITY = 1;

void main()
{
    vec3 direction = normalize(pos - cameraPosition);

    // Where the ray enters and leaves the box, slab by slab.
    vec3 halfSize = 0.5 * size;
    vec3 towardsLow = (-halfSize - cameraPosition) / direction;
    vec3 towardsHigh = (halfSize - cameraPosition) / direction;
    vec3 entry = min(towardsLow, towardsHigh);
    vec3 leave = max(towardsLow, towardsHigh);
    float tNear = max(max(entry.x, max(entry.y, entry.z)), 0.0);
    float tExit = min(leave.x, min(leave.y, leave.z));
    if (!(tExit > tNear)) {
        discard;
    }

    float stride = (tExit - tNear) / float(STEP_COUNT);
    float lowest = 1.0;
    float highest = 0.0;
    float total = 0.0;
    for (int i = 0; i < STEP_COUNT; i++) {
        vec3 p = cameraPosition + (tNear + (float(i) + 0.5) * stride) * direction;
        vec3 uvw = p / size + 0.5;
        float density = texture(tex, uvw).r;
        lowest = min(lowest, density);
        highest = max(highest, density);
        total += density;
    }

    float intensity = total / float(STEP_COUNT);
    if (renderingStyle == MINIMUM_INTENSITY) {
        intensity = lowest;
    } else if (renderingStyle == MAXIMUM_INTENSITY) {
        intensity = highest;
    }

    vec3 color = vec3(intensity);
    color = calculate_lighting(cameraPosition, color, pos, -direction, 0.0, 1.0, 1.0);
    color = tone_mapping(color);
    color = color_mapping(color);
    outColor = vec4(color, 1.0);
}
";

} // verus!
