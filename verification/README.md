# usercamera_pose

A local HTTP and WebSocket service for VRChat's user camera: it reads and sets the
camera pose over OSC, reads and writes other OSCQuery parameters, and captures the
camera's Spout stream as PNG frames.

The decisions of the service are a Verus library under `src/`, each with its contract:

- `capture` — packing a mapped Direct3D staging texture into RGBA rows and encoding
  them as PNG.
- `reader` — which Spout sender texture a reader may open, the textures it creates,
  and the steps of reading a frame.
- `worker` — the capture worker's queue of requests, reader state and failure reports.
- `osc` — the user camera mode and streaming state, the messages VRChat sends to the
  user camera service, and the commands that prepare streaming.
- `parameters` — the OSC argument a JSON request body becomes for a parameter type,
  the node path of a parameter address, and how a parameter's values are shown.
- `api` — parameter addresses, HTTP statuses and messages of the routes.
- `arguments` and `text` — the command line and decimal numbers.

`app/` is the program around it: the axum server, the OSC service, the Spout and
Direct3D reader (Windows only), and everything that holds floating-point poses.
