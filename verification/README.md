# ocpp-client

A simulator of charge points that speak the Open Charge Point Protocol (OCPP 1.6
and 2.0.1) to a central system. Charge points are created from configuration
files or over a REST interface, run scenarios of events (authorizations, plugging
vehicles in, faults, losing the connection), and count the messages they exchange.

The decisions of the simulator are a library verified with Verus (`src/`):

- `numeric`, `text`: decimal numbers and text as the standard library reads and
  writes them.
- `json`, `frames`: JSON documents as plain values, OCPP-J message frames read and
  written, and the retry budget of queued calls.
- `cli`, `arguments`, `rest`, `events`: the command interface, the command line,
  the REST requests and answers, and the events they schedule.
- `cp_data`, `device_model`, `configuration`: the device model, its OCPP 1.6 keys,
  reading and writing variables, GetConfiguration and ChangeConfiguration.
- `charging`, `communication`, `scheduler`, `message_stats`, `connect`: when
  charging starts and stops, faults, which EVSE a remote request is for, the event
  queue, message statistics and the connection's credentials.
- `charge_point`: the state of each EVSE and how events change it (plugging in,
  charging, faults), the authorization a session starts with, and the record a
  charge point is set up with.

`app/` is the program around it: the websocket connection, the asynchronous
charge point tasks, the REST server, logging, files, and the vehicle simulation,
which works in floating point.
