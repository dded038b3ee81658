# t2v

Verified core of the userspace driver for the RoboRacer track-to-vehicle (T2V)
module.

- `src/` is the library, checked by Verus: IR NEC frames (`frame`), Unix path components (`path`), the client
  protocol (`proto`), the subscriber lists and the main loop's decisions (`unit`,
  `subscribers`), the device task's decisions and device selection (`device`), the
  socket setup decisions (`setup`) and the client's output (`cli`).
- `app/` holds the two programs around it (the driver daemon and its command line
  client): USB access through nusb, sockets, systemd, logging and JSON.
