# rigged_character

A touch-controlled, skinned 3D character: a procedurally built mesh (two
boxes and four limbs with elbow and knee loop cuts) bound to an eleven-bone
skeleton, an idle animation, a virtual joystick, keyboard steering, and four
action buttons.

`src/` is the verified library (Verus). Geometry is exact integer geometry:
rig positions and part sizes in millimetres, mesh vertex positions in
half-millimetres, skin weights in hundredths.

- `geometry`: points, normals, and the vector algebra of the specifications.
- `skeleton`: bone ids, the hierarchy, local offsets and the bind pose; the
  bones form a tree rooted at the pelvis and the bind pose is the sum of the
  offsets along each chain.
- `mesh`: the mesh builder (`add_face`, `add_box`, `add_limb`) and the laws
  of its boxes and limbs: every face is wound counter-clockwise seen from
  outside, each part is a closed surface enclosing a convex solid with
  outward normals, and joint rings are skinned half and half.
- `character`: the character's parts and mesh; each part hangs from its
  bones' bind positions, every vertex is skinned with weights summing to one,
  and the soles sit exactly the standing height below the origin.
- `animation`: the idle motion of each bone, mirrored left to right.
- `controls`: action buttons (only Cross jumps, and only from the ground),
  keyboard steering, and which pointer drives the joystick.
- `ui`: the on-screen layout of the joystick and the action buttons.

`app/main.rs` is the game itself on the Bevy engine: it spawns the scene and
the UI, converts the library's fixed-point values to metres and pixels, and
runs the floating-point parts (joystick knob placement, movement physics, the
sway's trigonometry).
