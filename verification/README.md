# BotStream

An agent that streams video and audio to a peer over WebRTC and exchanges texts with it, over the
signalling connection and over a data channel.

- `src/` holds the decisions of the agent, verified with Verus. No function there performs input
  or output: it takes what has happened and returns what is to be done about it.
  - `launch`: the text of the pipeline, the plugins that are needed, the number to register under
  - `handshake`: registration with the signalling server and joining the session of a peer
  - `webrtc`: the set-up of the WebRTC element, negotiation, candidates, incoming streams
  - `run`: the message loop of a session
  - `stream`: what an application hands in and is called with
  - `utils`: the application's video and what serves a request for a frame
  - `json`, `message`, `command`, `error`: the values that these speak of
  - `text`, `lists`: texts and lists
- `app/` carries the decisions out with GStreamer and a WebSocket connection, and offers the
  program and the interface for C.
- `tests/` runs the library.

An agent with a custom pipeline:

```
--agent-id 9000 --peer-id 1000 \
    "video. ! videoconvert ! vp8enc deadline=1 ! rtpvp8pay pt=96 ! webrtc." \
    "audiotestsrc is-live=true ! opusenc ! rtpopuspay pt=97 ! webrtc."
```

A reference to `webrtc.` adds the WebRTC element, one to `video.` the source that the application
feeds. A pipeline that refers to no `video.` runs without an application.
